use vstd::prelude::*;
use crate::records::{expect_id, id_parses, parse_id, parsed_id};

verus! {

/// The name of the server created when none exists.
pub const DEFAULT_SERVER_NAME: &'static str = "Nexus";

/// The description of the server created when none exists.
pub const DEFAULT_SERVER_DESCRIPTION: &'static str = "The default community server.";

/// The channels (name, description) of the server created when none exists.
pub fn default_channels() -> (r: Vec<(&'static str, &'static str)>)
    ensures
        r@.len() == 3,
        r@[0].0@ == "general"@ && r@[0].1@ == "General discussion"@,
        r@[1].0@ == "cyberdeck"@ && r@[1].1@ == "Tech talk"@,
        r@[2].0@ == "random"@ && r@[2].1@ == "Off-topic"@,
{
    let mut r = Vec::new();
    r.push(("general", "General discussion"));
    r.push(("cyberdeck", "Tech talk"));
    r.push(("random", "Off-topic"));
    r
}

/// Whether the default server must be created: no server exists yet.
pub fn needs_default_server(server_count: i64) -> (r: bool)
    ensures
        r == (server_count <= 0),
{
    server_count <= 0
}

/// The refusal when no admin can own the default server.
pub fn no_admin_error() -> (s: String)
    ensures
        s@ == "No admin user found"@,
{
    String::from_str("No admin user found")
}

/// Whether all stored identifier texts parse.
pub open spec fn all_parse(texts: Seq<String>) -> bool {
    forall|i: int| 0 <= i < texts.len() ==> #[trigger] id_parses(texts[i]@)
}

/// The identifiers of a list of stored identifier texts that all parse.
pub fn ids_from_texts(texts: &Vec<String>) -> (r: Vec<u128>)
    requires
        all_parse(texts@),
    ensures
        r@ == texts@.map_values(|t: String| parsed_id(t@)),
{
    let mut out: Vec<u128> = Vec::new();
    let mut i: usize = 0;
    while i < texts.len()
        invariant
            i <= texts.len(),
            all_parse(texts@),
            out@ == texts@.take(i as int).map_values(|t: String| parsed_id(t@)),
        decreases texts.len() - i,
    {
        let id = expect_id(texts[i].as_str());
        out.push(id);
        assert(texts@.take(i + 1).map_values(|t: String| parsed_id(t@)) =~= texts@.take(i as int).map_values(
            |t: String| parsed_id(t@),
        ).push(id));
        i = i + 1;
    }
    assert(texts@.take(texts.len() as int) =~= texts@);
    out
}

/// The identifiers of a list of stored identifier texts, or nothing when one does
/// not parse.
pub fn try_ids_from_texts(texts: &Vec<String>) -> (r: Option<Vec<u128>>)
    ensures
        r is Some <==> all_parse(texts@),
        r matches Some(v) ==> v@ == texts@.map_values(|t: String| parsed_id(t@)),
{
    let mut i: usize = 0;
    while i < texts.len()
        invariant
            i <= texts.len(),
            forall|k: int| 0 <= k < i ==> #[trigger] id_parses(texts@[k]@),
        decreases texts.len() - i,
    {
        if parse_id(texts[i].as_str()).is_err() {
            assert(!id_parses(texts@[i as int]@));
            return None;
        }
        i = i + 1;
    }
    Some(ids_from_texts(texts))
}

} // verus!
