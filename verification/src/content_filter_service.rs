use vstd::prelude::*;
pub use crate::content_filter::FilterResult;
use crate::content_filter::{
    all_compile, compile_patterns, is_first_refusal, judge_message, lower_words, lowered, message_verdict,
    pattern_texts, texts, verdict, views, ModerationConfig,
};
use crate::patterns::Pattern;

verus! {

/// Content filtering service for automatic moderation of chat messages (length,
/// blocked words and patterns; no spam heuristics).
pub struct ContentFilterService {
    blocked_words: Vec<Vec<char>>,
    blocked_patterns: Vec<Pattern>,
    config: ModerationConfig,
}

impl ContentFilterService {
    /// The blocked words, lower case.
    pub closed spec fn words(&self) -> Seq<Seq<char>> {
        views(self.blocked_words@)
    }

    /// The texts of the blocked patterns.
    pub closed spec fn patterns(&self) -> Seq<Seq<char>> {
        pattern_texts(self.blocked_patterns@)
    }

    /// Whether automatic moderation is on.
    pub closed spec fn enabled(&self) -> bool {
        self.config.auto_moderation_enabled
    }

    /// The longest message allowed, in bytes.
    pub closed spec fn length_limit(&self) -> usize {
        self.config.message_length_limit
    }

    /// A filter with the given settings; refused when a pattern does not compile.
    pub fn new(config: ModerationConfig) -> (r: Result<Self, String>)
        ensures
            r is Ok <==> all_compile(config.blocked_patterns@),
            r matches Err(e) ==> is_first_refusal(config.blocked_patterns@, e@),
            r matches Ok(f) ==> {
                &&& f.words() == lowered(config.blocked_words@)
                &&& f.patterns() == texts(config.blocked_patterns@)
                &&& f.enabled() == config.auto_moderation_enabled
                &&& f.length_limit() == config.message_length_limit
            },
    {
        let blocked_words = lower_words(&config.blocked_words);
        match compile_patterns(&config.blocked_patterns) {
            Ok(blocked_patterns) => Ok(ContentFilterService { blocked_words, blocked_patterns, config }),
            Err(e) => Err(e),
        }
    }

    /// Filter message content.
    pub fn filter_message(&self, content: &str, author_id: u128) -> (r: FilterResult)
        ensures
            verdict(r) == message_verdict(
                self.enabled(),
                self.length_limit(),
                self.words(),
                self.patterns(),
                content@,
                content.len() as nat,
                false,
            ),
    {
        judge_message(
            self.config.auto_moderation_enabled,
            self.config.message_length_limit,
            &self.blocked_words,
            &self.blocked_patterns,
            content,
            false,
        )
    }
}

} // verus!
