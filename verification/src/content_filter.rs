use vstd::prelude::*;
use crate::patterns::{compile_pattern, pattern_is_match, regex_compile_error, regex_matches, Pattern};
use crate::text::{
    chars_of, contains_chars, decimal_text, format_usize, has_substring, is_alphabetic, is_alphanumeric,
    is_uppercase, is_whitespace, to_lowercase, unicode_alphabetic, unicode_alphanumeric, unicode_lowercase,
    unicode_uppercase, unicode_whitespace,
};

verus! {

/// The moderation settings.
#[derive(Debug, Clone)]
pub struct ModerationConfig {
    pub auto_moderation_enabled: bool,
    pub message_length_limit: usize,
    pub blocked_words: Vec<String>,
    pub blocked_patterns: Vec<String>,
}

/// The verdict on a piece of content.
#[derive(Debug, Clone)]
pub enum FilterResult {
    Allowed,
    Blocked { reason: String },
    /// For manual review.
    Flagged { reason: String },
}

/// The verdict without its reason's characters: what kind, and the reason's text.
pub open spec fn verdict(r: FilterResult) -> (int, Seq<char>) {
    match r {
        FilterResult::Allowed => (0, Seq::empty()),
        FilterResult::Blocked { reason } => (1, reason@),
        FilterResult::Flagged { reason } => (2, reason@),
    }
}

/// The lower-case form of each word, in order.
pub open spec fn lowered(words: Seq<String>) -> Seq<Seq<char>> {
    words.map_values(|w: String| unicode_lowercase(w@))
}

/// The text of each string, in order.
pub open spec fn texts(words: Seq<String>) -> Seq<Seq<char>> {
    words.map_values(|w: String| w@)
}

/// Whether the (lower-cased) text holds one of the blocked words.
pub open spec fn holds_blocked_word(lower_text: Seq<char>, words: Seq<Seq<char>>) -> bool {
    exists|i: int| 0 <= i < words.len() && has_substring(lower_text, #[trigger] words[i])
}

/// Whether one of the patterns matches the text.
pub open spec fn matches_blocked_pattern(text: Seq<char>, patterns: Seq<Seq<char>>) -> bool {
    exists|i: int| 0 <= i < patterns.len() && regex_matches(#[trigger] patterns[i], text)
}

/// The refusal of a pattern that does not compile.
pub open spec fn invalid_pattern_text(pattern: Seq<char>) -> Seq<char> {
    "Invalid regex pattern '"@ + pattern + "': "@ + regex_compile_error(pattern).unwrap()
}

/// How many characters of a text are upper case.
pub open spec fn count_upper(s: Seq<char>) -> nat
    decreases s.len(),
{
    if s.len() == 0 { 0 } else { count_upper(s.drop_last()) + (if unicode_uppercase(s.last()) { 1nat } else { 0nat }) }
}

/// How many characters of a text are alphabetic.
pub open spec fn count_alphabetic(s: Seq<char>) -> nat
    decreases s.len(),
{
    if s.len() == 0 { 0 } else { count_alphabetic(s.drop_last()) + (if unicode_alphabetic(s.last()) { 1nat } else { 0nat }) }
}

/// Whether a character is neither alphanumeric nor white space.
pub open spec fn is_special(c: char) -> bool {
    !unicode_alphanumeric(c) && !unicode_whitespace(c)
}

/// How many characters of a text are neither alphanumeric nor white space.
pub open spec fn count_special(s: Seq<char>) -> nat
    decreases s.len(),
{
    if s.len() == 0 { 0 } else { count_special(s.drop_last()) + (if is_special(s.last()) { 1nat } else { 0nat }) }
}

/// The white-space separated words of a text (what `str::split_whitespace` yields),
/// read from position `i` on, with `cur` the word being read and `acc` the words so far.
pub open spec fn words_from(s: Seq<char>, i: int, cur: Seq<char>, acc: Seq<Seq<char>>) -> Seq<Seq<char>>
    decreases s.len() - i,
{
    if i >= s.len() {
        if cur.len() > 0 { acc.push(cur) } else { acc }
    } else if unicode_whitespace(s[i]) {
        words_from(s, i + 1, Seq::empty(), if cur.len() > 0 { acc.push(cur) } else { acc })
    } else {
        words_from(s, i + 1, cur.push(s[i]), acc)
    }
}

/// The white-space separated words of a text.
pub open spec fn whitespace_words(s: Seq<char>) -> Seq<Seq<char>> {
    words_from(s, 0, Seq::empty(), Seq::empty())
}

/// Whether a message looks like spam: more than ten words, each used more than three
/// times on average; or more than twenty letters, over seven tenths of them upper case;
/// or more than twenty bytes, over half of them (counted as characters) neither
/// alphanumeric nor white space.
pub open spec fn looks_like_spam(s: Seq<char>, byte_len: nat) -> bool {
    let words = whitespace_words(s);
    let caps = count_upper(s);
    let letters = count_alphabetic(s);
    let special = count_special(s);
    ||| words.len() > 10 && words.len() > 3 * words.to_set().len()
    ||| letters > 20 && 10 * caps > 7 * letters
    ||| byte_len > 20 && 2 * special > byte_len
}

fn count_chars_where_upper(s: &Vec<char>) -> (n: usize)
    ensures
        n == count_upper(s@),
{
    let mut n: usize = 0;
    let mut i: usize = 0;
    while i < s.len()
        invariant
            i <= s.len(),
            n <= i,
            n == count_upper(s@.take(i as int)),
        decreases s.len() - i,
    {
        assert(s@.take(i + 1).drop_last() =~= s@.take(i as int));
        if is_uppercase(s[i]) {
            n = n + 1;
        }
        i = i + 1;
    }
    assert(s@.take(s.len() as int) =~= s@);
    n
}

fn count_chars_where_alphabetic(s: &Vec<char>) -> (n: usize)
    ensures
        n == count_alphabetic(s@),
{
    let mut n: usize = 0;
    let mut i: usize = 0;
    while i < s.len()
        invariant
            i <= s.len(),
            n <= i,
            n == count_alphabetic(s@.take(i as int)),
        decreases s.len() - i,
    {
        assert(s@.take(i + 1).drop_last() =~= s@.take(i as int));
        if is_alphabetic(s[i]) {
            n = n + 1;
        }
        i = i + 1;
    }
    assert(s@.take(s.len() as int) =~= s@);
    n
}

fn count_chars_special(s: &Vec<char>) -> (n: usize)
    ensures
        n == count_special(s@),
{
    let mut n: usize = 0;
    let mut i: usize = 0;
    while i < s.len()
        invariant
            i <= s.len(),
            n <= i,
            n == count_special(s@.take(i as int)),
        decreases s.len() - i,
    {
        assert(s@.take(i + 1).drop_last() =~= s@.take(i as int));
        if !is_alphanumeric(s[i]) && !is_whitespace(s[i]) {
            n = n + 1;
        }
        i = i + 1;
    }
    assert(s@.take(s.len() as int) =~= s@);
    n
}

/// The views of a list of character vectors.
pub open spec fn views(v: Seq<Vec<char>>) -> Seq<Seq<char>> {
    v.map_values(|w: Vec<char>| w@)
}

fn split_words(s: &Vec<char>) -> (words: Vec<Vec<char>>)
    ensures
        views(words@) == whitespace_words(s@),
        words@.len() <= s@.len(),
{
    let mut words: Vec<Vec<char>> = Vec::new();
    let mut cur: Vec<char> = Vec::new();
    let mut i: usize = 0;
    assert(views(words@) =~= Seq::<Seq<char>>::empty());
    assert(cur@ =~= Seq::<char>::empty());
    while i < s.len()
        invariant
            i <= s.len(),
            words_from(s@, i as int, cur@, views(words@)) == whitespace_words(s@),
            words@.len() + (if cur@.len() > 0 { 1int } else { 0int }) <= i,
        decreases s.len() - i,
    {
        let c = s[i];
        if is_whitespace(c) {
            if cur.len() > 0 {
                let ghost before = views(words@);
                let w = cur;
                words.push(w);
                assert(views(words@) =~= before.push(w@));
                cur = Vec::new();
            } else {
                cur = Vec::new();
            }
            assert(cur@ =~= Seq::<char>::empty());
        } else {
            cur.push(c);
        }
        i = i + 1;
    }
    if cur.len() > 0 {
        let ghost before = views(words@);
        let w = cur;
        words.push(w);
        assert(views(words@) =~= before.push(w@));
    }
    words
}

fn same_chars(a: &Vec<char>, b: &Vec<char>) -> (r: bool)
    ensures
        r == (a@ == b@),
{
    if a.len() != b.len() {
        return false;
    }
    let mut i: usize = 0;
    while i < a.len()
        invariant
            a.len() == b.len(),
            i <= a.len(),
            forall|k: int| 0 <= k < i ==> a@[k] == b@[k],
        decreases a.len() - i,
    {
        if a[i] != b[i] {
            return false;
        }
        i = i + 1;
    }
    assert(a@ =~= b@);
    true
}

fn seen_before(words: &Vec<Vec<char>>, i: usize) -> (r: bool)
    requires
        i < words.len(),
    ensures
        r == views(words@).take(i as int).contains(words@[i as int]@),
{
    let ghost vs = views(words@);
    let mut j: usize = 0;
    while j < i
        invariant
            i < words.len(),
            j <= i,
            vs == views(words@),
            forall|k: int| 0 <= k < j ==> vs[k] != words@[i as int]@,
        decreases i - j,
    {
        if same_chars(&words[j], &words[i]) {
            assert(vs.take(i as int)[j as int] == words@[i as int]@);
            return true;
        }
        j = j + 1;
    }
    assert forall|k: int| 0 <= k < vs.take(i as int).len() implies vs.take(i as int)[k] != words@[i as int]@ by {
        assert(vs.take(i as int)[k] == vs[k]);
    }
    false
}

fn count_distinct(words: &Vec<Vec<char>>) -> (n: usize)
    ensures
        n == views(words@).to_set().len(),
{
    let ghost vs = views(words@);
    let mut n: usize = 0;
    let mut i: usize = 0;
    proof {
        assert(vs.take(0).to_set() =~= Set::<Seq<char>>::empty());
    }
    while i < words.len()
        invariant
            i <= words.len(),
            vs == views(words@),
            n <= i,
            n == vs.take(i as int).to_set().len(),
        decreases words.len() - i,
    {
        let seen = seen_before(words, i);
        proof {
            assert(vs.take(i + 1) =~= vs.take(i as int).push(vs[i as int]));
            vs.take(i as int).lemma_push_to_set_commute(vs[i as int]);
            vstd::seq_lib::seq_to_set_is_finite(vs.take(i as int));
        }
        if !seen {
            n = n + 1;
        }
        i = i + 1;
    }
    assert(vs.take(words.len() as int) =~= vs);
    n
}

/// Whether a message looks like spam (see `looks_like_spam`).
pub fn is_potential_spam(content: &str) -> (r: bool)
    ensures
        r == looks_like_spam(content@, content.len() as nat),
{
    let s = chars_of(content);
    let words = split_words(&s);
    let repetitive = if words.len() > 10 {
        let unique = count_distinct(&words);
        words.len() as u128 > 3 * (unique as u128)
    } else {
        false
    };
    if repetitive {
        return true;
    }
    let caps = count_chars_where_upper(&s);
    let letters = count_chars_where_alphabetic(&s);
    if letters > 20 && 10 * (caps as u128) > 7 * (letters as u128) {
        return true;
    }
    let special = count_chars_special(&s);
    let byte_len = content.len();
    if byte_len > 20 && 2 * (special as u128) > byte_len as u128 {
        return true;
    }
    false
}


/// The pattern text of each compiled pattern.
pub open spec fn pattern_texts(ps: Seq<Pattern>) -> Seq<Seq<char>> {
    ps.map_values(|p: Pattern| p@)
}

/// What compiling a list of patterns gives: all of them compiled in order, or the
/// refusal of the first one that does not compile.
pub open spec fn compiled_all(patterns: Seq<String>, r: Result<Vec<Pattern>, String>) -> bool {
    match r {
        Ok(ps) => pattern_texts(ps@) == texts(patterns) && all_compile(patterns),
        Err(e) => is_first_refusal(patterns, e@),
    }
}

/// Whether every pattern compiles.
pub open spec fn all_compile(patterns: Seq<String>) -> bool {
    forall|i: int| 0 <= i < patterns.len() ==> (#[trigger] regex_compile_error(patterns[i]@)).is_none()
}

/// Whether `e` is the refusal of the first pattern that does not compile.
pub open spec fn is_first_refusal(patterns: Seq<String>, e: Seq<char>) -> bool {
    exists|i: int|
        0 <= i < patterns.len()
        && (#[trigger] regex_compile_error(patterns[i]@)).is_some()
        && (forall|j: int| 0 <= j < i ==> (#[trigger] regex_compile_error(patterns[j]@)).is_none())
        && e == invalid_pattern_text(patterns[i]@)
}

/// Compile each pattern in order, stopping at the first that does not compile.
pub fn compile_patterns(patterns: &Vec<String>) -> (r: Result<Vec<Pattern>, String>)
    ensures
        compiled_all(patterns@, r),
{
    let mut out: Vec<Pattern> = Vec::new();
    let mut i: usize = 0;
    while i < patterns.len()
        invariant
            i <= patterns.len(),
            pattern_texts(out@) == texts(patterns@).take(i as int),
            forall|j: int| 0 <= j < i ==> (#[trigger] regex_compile_error(patterns@[j]@)).is_none(),
        decreases patterns.len() - i,
    {
        let p = &patterns[i];
        match compile_pattern(p.as_str()) {
            Ok(compiled) => {
                let ghost before = pattern_texts(out@);
                out.push(compiled);
                assert(pattern_texts(out@) =~= before.push(patterns@[i as int]@));
                assert(texts(patterns@).take(i + 1) =~= texts(patterns@).take(i as int).push(patterns@[i as int]@));
            },
            Err(e) => {
                let mut m = String::from_str("Invalid regex pattern '");
                m.append(p.as_str());
                m.append("': ");
                m.append(e.as_str());
                assert(regex_compile_error(patterns@[i as int]@).is_some());
                return Err(m);
            },
        }
        i = i + 1;
    }
    assert(texts(patterns@).take(patterns.len() as int) =~= texts(patterns@));
    Ok(out)
}

/// The lower-case characters of each word, in order.
pub fn lower_words(words: &Vec<String>) -> (r: Vec<Vec<char>>)
    ensures
        views(r@) == lowered(words@),
{
    let mut out: Vec<Vec<char>> = Vec::new();
    let mut i: usize = 0;
    while i < words.len()
        invariant
            i <= words.len(),
            views(out@) == lowered(words@).take(i as int),
        decreases words.len() - i,
    {
        let low = to_lowercase(words[i].as_str());
        let cs = chars_of(low.as_str());
        let ghost before = views(out@);
        out.push(cs);
        assert(views(out@) =~= before.push(unicode_lowercase(words@[i as int]@)));
        assert(lowered(words@).take(i + 1) =~= lowered(words@).take(i as int).push(unicode_lowercase(words@[i as int]@)));
        i = i + 1;
    }
    assert(lowered(words@).take(words.len() as int) =~= lowered(words@));
    out
}

fn find_blocked_word(lower_text: &Vec<char>, words: &Vec<Vec<char>>) -> (r: bool)
    ensures
        r == holds_blocked_word(lower_text@, views(words@)),
{
    let ghost ws = views(words@);
    let mut i: usize = 0;
    while i < words.len()
        invariant
            i <= words.len(),
            ws == views(words@),
            forall|k: int| 0 <= k < i ==> !has_substring(lower_text@, #[trigger] ws[k]),
        decreases words.len() - i,
    {
        if contains_chars(lower_text, &words[i]) {
            assert(has_substring(lower_text@, ws[i as int]));
            return true;
        }
        i = i + 1;
    }
    false
}

fn find_blocked_pattern(text: &str, patterns: &Vec<Pattern>) -> (r: bool)
    ensures
        r == matches_blocked_pattern(text@, pattern_texts(patterns@)),
{
    let ghost ps = pattern_texts(patterns@);
    let mut i: usize = 0;
    while i < patterns.len()
        invariant
            i <= patterns.len(),
            ps == pattern_texts(patterns@),
            forall|k: int| 0 <= k < i ==> !regex_matches(#[trigger] ps[k], text@),
        decreases patterns.len() - i,
    {
        if pattern_is_match(&patterns[i], text) {
            assert(regex_matches(ps[i as int], text@));
            return true;
        }
        i = i + 1;
    }
    false
}

/// The refusal of a message longer than the limit.
pub open spec fn too_long_text(limit: usize) -> Seq<char> {
    "Message too long. Maximum "@ + decimal_text(limit as nat) + " characters allowed."@
}

/// The verdict on a message: allowed when moderation is off; else blocked when longer
/// than the limit (in bytes), when its lower-case form holds a blocked word, or when a
/// pattern matches it; else flagged when `spam_check` is on and it looks like spam;
/// else allowed.
pub open spec fn message_verdict(
    enabled: bool,
    limit: usize,
    words: Seq<Seq<char>>,
    patterns: Seq<Seq<char>>,
    content: Seq<char>,
    byte_len: nat,
    spam_check: bool,
) -> (int, Seq<char>) {
    if !enabled {
        (0, Seq::empty())
    } else if byte_len > limit {
        (1, too_long_text(limit))
    } else if holds_blocked_word(unicode_lowercase(content), words) {
        (1, "Message contains blocked content"@)
    } else if matches_blocked_pattern(content, patterns) {
        (1, "Message contains blocked content pattern"@)
    } else if spam_check && looks_like_spam(content, byte_len) {
        (2, "Message flagged as potential spam"@)
    } else {
        (0, Seq::empty())
    }
}

/// The verdict on a username: allowed when moderation is off; else blocked when its
/// lower-case form holds a blocked word or a pattern matches it; else allowed.
pub open spec fn username_verdict(
    enabled: bool,
    words: Seq<Seq<char>>,
    patterns: Seq<Seq<char>>,
    username: Seq<char>,
) -> (int, Seq<char>) {
    if !enabled {
        (0, Seq::empty())
    } else if holds_blocked_word(unicode_lowercase(username), words) {
        (1, "Username contains blocked content"@)
    } else if matches_blocked_pattern(username, patterns) {
        (1, "Username contains blocked content pattern"@)
    } else {
        (0, Seq::empty())
    }
}

/// Judge a message against moderation settings, blocked words (lower case) and
/// patterns; `spam_check` says whether the spam heuristics apply.
pub fn judge_message(
    enabled: bool,
    limit: usize,
    words: &Vec<Vec<char>>,
    patterns: &Vec<Pattern>,
    content: &str,
    spam_check: bool,
) -> (r: FilterResult)
    ensures
        verdict(r) == message_verdict(
            enabled,
            limit,
            views(words@),
            pattern_texts(patterns@),
            content@,
            content.len() as nat,
            spam_check,
        ),
{
    if !enabled {
        return FilterResult::Allowed;
    }
    if content.len() > limit {
        let mut reason = String::from_str("Message too long. Maximum ");
        let n = format_usize(limit);
        reason.append(n.as_str());
        reason.append(" characters allowed.");
        return FilterResult::Blocked { reason };
    }
    let lower = to_lowercase(content);
    let lower_chars = chars_of(lower.as_str());
    if find_blocked_word(&lower_chars, words) {
        return FilterResult::Blocked { reason: String::from_str("Message contains blocked content") };
    }
    if find_blocked_pattern(content, patterns) {
        return FilterResult::Blocked { reason: String::from_str("Message contains blocked content pattern") };
    }
    if spam_check && is_potential_spam(content) {
        return FilterResult::Flagged { reason: String::from_str("Message flagged as potential spam") };
    }
    FilterResult::Allowed
}

/// Content filtering service for automatic moderation.
pub struct ContentFilterService {
    blocked_words: Vec<Vec<char>>,
    blocked_patterns: Vec<Pattern>,
    config: ModerationConfig,
}

impl ContentFilterService {
    /// The blocked words, lower case.
    pub closed spec fn words(&self) -> Seq<Seq<char>> {
        views(self.blocked_words@)
    }

    /// The texts of the blocked patterns.
    pub closed spec fn patterns(&self) -> Seq<Seq<char>> {
        pattern_texts(self.blocked_patterns@)
    }

    /// Whether automatic moderation is on.
    pub closed spec fn enabled(&self) -> bool {
        self.config.auto_moderation_enabled
    }

    /// The longest message allowed, in bytes.
    pub closed spec fn length_limit(&self) -> usize {
        self.config.message_length_limit
    }

    /// A filter with the given settings; refused when a pattern does not compile.
    pub fn new(config: ModerationConfig) -> (r: Result<Self, String>)
        ensures
            r is Ok <==> all_compile(config.blocked_patterns@),
            r matches Err(e) ==> is_first_refusal(config.blocked_patterns@, e@),
            r matches Ok(f) ==> {
                &&& f.words() == lowered(config.blocked_words@)
                &&& f.patterns() == texts(config.blocked_patterns@)
                &&& f.enabled() == config.auto_moderation_enabled
                &&& f.length_limit() == config.message_length_limit
            },
    {
        let blocked_words = lower_words(&config.blocked_words);
        match compile_patterns(&config.blocked_patterns) {
            Ok(blocked_patterns) => Ok(ContentFilterService { blocked_words, blocked_patterns, config }),
            Err(e) => Err(e),
        }
    }

    /// Filter message content.
    pub fn filter_message(&self, content: &str, author_id: u128) -> (r: FilterResult)
        ensures
            verdict(r) == message_verdict(
                self.enabled(),
                self.length_limit(),
                self.words(),
                self.patterns(),
                content@,
                content.len() as nat,
                true,
            ),
    {
        judge_message(
            self.config.auto_moderation_enabled,
            self.config.message_length_limit,
            &self.blocked_words,
            &self.blocked_patterns,
            content,
            true,
        )
    }

    /// Filter a username for registration.
    pub fn filter_username(&self, username: &str) -> (r: FilterResult)
        ensures
            verdict(r) == username_verdict(self.enabled(), self.words(), self.patterns(), username@),
    {
        if !self.config.auto_moderation_enabled {
            return FilterResult::Allowed;
        }
        let lower = to_lowercase(username);
        let lower_chars = chars_of(lower.as_str());
        if find_blocked_word(&lower_chars, &self.blocked_words) {
            return FilterResult::Blocked { reason: String::from_str("Username contains blocked content") };
        }
        if find_blocked_pattern(username, &self.blocked_patterns) {
            return FilterResult::Blocked { reason: String::from_str("Username contains blocked content pattern") };
        }
        FilterResult::Allowed
    }

    /// Replace the blocked words.
    pub fn update_blocked_words(&mut self, words: Vec<String>)
        ensures
            final(self).words() == lowered(words@),
            final(self).patterns() == old(self).patterns(),
            final(self).enabled() == old(self).enabled(),
            final(self).length_limit() == old(self).length_limit(),
    {
        self.blocked_words = lower_words(&words);
    }

    /// Replace the blocked patterns; refused, with nothing changed, when one does not compile.
    pub fn update_blocked_patterns(&mut self, patterns: Vec<String>) -> (r: Result<(), String>)
        ensures
            r is Ok <==> all_compile(patterns@),
            r matches Err(e) ==> is_first_refusal(patterns@, e@),
            r is Ok ==> final(self).patterns() == texts(patterns@),
            r is Err ==> final(self).patterns() == old(self).patterns(),
            final(self).words() == old(self).words(),
            final(self).enabled() == old(self).enabled(),
            final(self).length_limit() == old(self).length_limit(),
    {
        match compile_patterns(&patterns) {
            Ok(compiled) => {
                self.blocked_patterns = compiled;
                Ok(())
            },
            Err(e) => Err(e),
        }
    }
}

} // verus!
