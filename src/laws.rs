//! Properties that relate several operations of the store and the client.
use vstd::prelude::*;
use crate::client::token_usable;
use crate::json::json_text_field;
use crate::model::{ContentResponse, content_json};
use crate::store::{load_from, token_file, token_in};
use crate::text::{is_white_space, trim_end, trim_start};

verus! {

/// A token that neither begins nor ends with white space reads back as saved.
pub proof fn lemma_token_reads_back(t: Seq<char>)
    requires
        t.len() > 0,
        !is_white_space(t[0]),
        !is_white_space(t.last()),
    ensures
        token_in(t) == Some(t),
{
    assert(trim_start(t) == t);
    assert(trim_end(t) == t);
}

/// Loading after saving gives back the saved token, where the token is not
/// empty and neither begins nor ends with white space.
pub proof fn lemma_save_then_load(
    files: Map<Seq<char>, Seq<char>>,
    dir: Seq<char>,
    host: Seq<char>,
    t: Seq<char>,
)
    requires
        t.len() > 0,
        !is_white_space(t[0]),
        !is_white_space(t.last()),
    ensures
        load_from(files.insert(token_file(dir, host), t), dir, host) == Some(t),
{
    lemma_token_reads_back(t);
}

/// Where nothing was saved for an identity, loading finds nothing.
pub proof fn lemma_load_unsaved(files: Map<Seq<char>, Seq<char>>, dir: Seq<char>, host: Seq<char>)
    requires
        !files.contains_key(token_file(dir, host)),
    ensures
        load_from(files, dir, host) is None,
        !token_usable(load_from(files, dir, host)),
{
}

/// After a deletion loading finds nothing, and an authenticated operation
/// finds no token to send; deleting what is absent changes nothing.
pub proof fn lemma_delete_then_load(files: Map<Seq<char>, Seq<char>>, dir: Seq<char>, host: Seq<char>)
    ensures
        load_from(files.remove(token_file(dir, host)), dir, host) is None,
        !token_usable(load_from(files.remove(token_file(dir, host)), dir, host)),
        !files.contains_key(token_file(dir, host)) ==> files.remove(token_file(dir, host)) == files,
{
    if !files.contains_key(token_file(dir, host)) {
        assert(files.remove(token_file(dir, host)) =~= files);
    }
}

/// The member `kind` of a content document decides the variant: `tree` gives
/// a directory listing, `blob` a file.
pub proof fn lemma_content_kind(t: Seq<char>, c: ContentResponse)
    requires
        content_json(t, c),
    ensures
        json_text_field(t, "kind"@) == Some("tree"@) ==> c is tree,
        json_text_field(t, "kind"@) == Some("blob"@) ==> c is blob,
{
    reveal_strlit("tree");
    reveal_strlit("blob");
    assert("tree"@[0] != "blob"@[0]);
}

} // verus!
