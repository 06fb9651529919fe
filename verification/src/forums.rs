use vstd::prelude::*;
use crate::ids::uuid_parse_result;
use crate::model::{Post, PostLightweight, User, UserInfo, UserRole};
use crate::records::{expect_id, id_parses, parse_id, parsed_id};
use crate::text::same_text;

verus! {

/// Whether a user may delete content: the author may, and so may admins and moderators
/// (by their stored role name).
pub open spec fn may_delete(author_id: Seq<char>, user_id: Seq<char>, role: Seq<char>) -> bool {
    author_id == user_id || role == "Admin"@ || role == "Moderator"@
}

fn deletion_allowed(author_id: &str, user_id: &str, role: &str) -> (r: bool)
    ensures
        r == may_delete(author_id@, user_id@, role@),
{
    same_text(author_id, user_id) || same_text(role, "Admin") || same_text(role, "Moderator")
}

/// Decide whether `user_id` (with stored role `role`) may delete a post by `author_id`.
pub fn check_post_deletion(author_id: &str, user_id: &str, role: &str) -> (r: Result<(), String>)
    ensures
        r is Ok <==> may_delete(author_id@, user_id@, role@),
        r matches Err(e) ==> e@ == "Permission denied: You can only delete your own posts"@,
{
    if deletion_allowed(author_id, user_id, role) {
        Ok(())
    } else {
        Err(String::from_str("Permission denied: You can only delete your own posts"))
    }
}

/// Decide whether `user_id` (with stored role `role`) may delete a thread by `author_id`.
pub fn check_thread_deletion(author_id: &str, user_id: &str, role: &str) -> (r: Result<(), String>)
    ensures
        r is Ok <==> may_delete(author_id@, user_id@, role@),
        r matches Err(e) ==> e@ == "Permission denied: You can only delete your own threads"@,
{
    if deletion_allowed(author_id, user_id, role) {
        Ok(())
    } else {
        Err(String::from_str("Permission denied: You can only delete your own threads"))
    }
}

/// The post that a stored reply reference points to: its identifier when it parses.
pub open spec fn reply_target(reply_to: Option<Seq<char>>) -> Option<u128> {
    match reply_to {
        Some(t) => match uuid_parse_result(t) {
            Ok(id) => Some(id),
            Err(_) => None,
        },
        None => None,
    }
}

fn parse_reply_to(reply_to: &Option<String>) -> (r: Option<u128>)
    ensures
        r == reply_target(match reply_to {
            Some(s) => Some(s@),
            None => None,
        }),
{
    match reply_to {
        Some(s) => match parse_id(s.as_str()) {
            Ok(id) => Some(id),
            Err(_) => None,
        },
        None => None,
    }
}

/// The text of an optional stored string.
pub open spec fn opt_text(o: Option<String>) -> Option<Seq<char>> {
    match o {
        Some(s) => Some(s@),
        None => None,
    }
}

/// A post from its stored row and its author; a reply reference that does not
/// parse is dropped.
pub fn post_from_row(id: &str, author: User, content: String, timestamp: i64, reply_to: Option<String>) -> (p: Post)
    requires
        id_parses(id@),
    ensures
        p.id == parsed_id(id@),
        p.author == author,
        p.content == content,
        p.timestamp == timestamp,
        p.reply_to == reply_target(opt_text(reply_to)),
{
    let pid = expect_id(id);
    let target = parse_reply_to(&reply_to);
    Post { id: pid, author, content, timestamp, reply_to: target }
}

/// A post whose author carries no images, from its stored row.
pub fn post_lightweight_from_row(id: &str, author: UserInfo, content: String, timestamp: i64, reply_to: Option<String>) -> (p: PostLightweight)
    requires
        id_parses(id@),
    ensures
        p.id == parsed_id(id@),
        p.author == author,
        p.content == content,
        p.timestamp == timestamp,
        p.reply_to == reply_target(opt_text(reply_to)),
{
    let pid = expect_id(id);
    let target = parse_reply_to(&reply_to);
    PostLightweight { id: pid, author, content, timestamp, reply_to: target }
}

/// A post from its stored row, or nothing when its identifier does not parse.
pub fn try_post_from_row(id: &str, author: User, content: String, timestamp: i64, reply_to: Option<String>) -> (r: Option<Post>)
    ensures
        r is Some <==> id_parses(id@),
        r matches Some(p) ==> p.id == parsed_id(id@) && p.author == author && p.content == content
            && p.timestamp == timestamp && p.reply_to == reply_target(opt_text(reply_to)),
{
    match parse_id(id) {
        Ok(_) => Some(post_from_row(id, author, content, timestamp, reply_to)),
        Err(_) => None,
    }
}

/// A post without author images from its stored row, or nothing when its identifier
/// does not parse.
pub fn try_post_lightweight_from_row(id: &str, author: UserInfo, content: String, timestamp: i64, reply_to: Option<String>) -> (r: Option<PostLightweight>)
    ensures
        r is Some <==> id_parses(id@),
        r matches Some(p) ==> p.id == parsed_id(id@) && p.author == author && p.content == content
            && p.timestamp == timestamp && p.reply_to == reply_target(opt_text(reply_to)),
{
    match parse_id(id) {
        Ok(_) => Some(post_lightweight_from_row(id, author, content, timestamp, reply_to)),
        Err(_) => None,
    }
}

/// Why a forum action is refused for the current user, if it is: not logged in, or
/// (for an admin-only action) not an admin.
pub open spec fn forum_action_refusal(user: Option<UserRole>, admin_only: bool, action: Seq<char>) -> Option<Seq<char>> {
    match user {
        None => Some("Must be logged in to "@ + action),
        Some(role) => if admin_only && role != UserRole::Admin {
            Some("Only admins can "@ + action)
        } else {
            None
        },
    }
}

/// Decide whether the current user (absent when not logged in) may take a forum
/// action named `action` (such as "create forums"); some actions are for admins only.
pub fn check_forum_action(user: &Option<User>, admin_only: bool, action: &str) -> (r: Result<(), String>)
    ensures
        match forum_action_refusal(
            match user {
                Some(u) => Some(u.role),
                None => None,
            },
            admin_only,
            action@,
        ) {
            None => r is Ok,
            Some(m) => r matches Err(e) && e@ == m,
        },
{
    match user {
        None => {
            let mut m = String::from_str("Must be logged in to ");
            m.append(action);
            Err(m)
        },
        Some(u) => if admin_only && u.role != UserRole::Admin {
            let mut m = String::from_str("Only admins can ");
            m.append(action);
            Err(m)
        } else {
            Ok(())
        },
    }
}

/// Whether replying to a post notifies its author: only when someone else replies.
pub fn notifies_reply_author(post_author: u128, replier: u128) -> (r: bool)
    ensures
        r == (post_author != replier),
{
    post_author != replier
}

} // verus!
