//! The resume marker: the id of the most recent item at the time a run
//! started, kept per collection target.
//!
//! The marker's first line is the id; the rest is a human-readable comment,
//! ignored on read. Writing the file — before any task of the run is
//! submitted — and reading it back happen outside the library; what stands
//! here is the encoding, the decoding, and their round trip.

use vstd::prelude::*;
use crate::strutil::{find_first, find_from, lemma_find_from_some, occurs_at, str_to_chars};

verus! {

/// The comment that follows the id in a marker file.
pub open spec fn marker_comment_text() -> Seq<char> {
    "\n# This is a file generated by redditrip to keep track of the already downloaded files.\n# Modify at your own risk!"@
}

/// A marker file's full contents for an id.
pub open spec fn marker_text(id: Seq<char>) -> Seq<char> {
    id + marker_comment_text()
}

/// Encodes a marker file: the id as the first line, then the comment.
pub fn marker_contents(id: &str) -> (r: String)
    ensures
        r@ == marker_text(id@),
{
    let mut s = id.to_owned();
    s.append(
        "\n# This is a file generated by redditrip to keep track of the already downloaded files.\n# Modify at your own risk!",
    );
    s
}

/// The first line of a text: everything before the first line break, or the
/// whole text if it has none.
pub open spec fn first_line(s: Seq<char>) -> Seq<char> {
    match find_from(s, seq!['\n'], 0) {
        Some(i) => s.subrange(0, i),
        None => s,
    }
}

/// Decodes a marker file: its first line is the id.
pub fn marker_first_line(data: &str) -> (r: String)
    ensures
        r@ == first_line(data@),
{
    let chars = str_to_chars(data);
    let mut nl: Vec<char> = Vec::new();
    nl.push('\n');
    proof {
        assert(nl@ =~= seq!['\n']);
    }
    match find_first(&chars, &nl) {
        Some(i) => {
            let line = data.substring_char(0, i);
            line.to_owned()
        },
        None => data.to_owned(),
    }
}

/// Resume-marker round trip: encoding an id — itself free of line breaks —
/// and reading the first line back returns exactly that id, whatever was in
/// the file before; a marker write replaces the whole file, so the last
/// write wins.
pub proof fn lemma_marker_round_trip(id: Seq<char>)
    requires
        forall|i: int| 0 <= i < id.len() ==> id[i] != '\n',
    ensures
        first_line(marker_text(id)) == id,
{
    reveal_strlit(
        "\n# This is a file generated by redditrip to keep track of the already downloaded files.\n# Modify at your own risk!",
    );
    let s = marker_text(id);
    assert(s[id.len() as int] == '\n');
    assert(s.subrange(id.len() as int, id.len() as int + 1) =~= seq!['\n']);
    assert(occurs_at(s, seq!['\n'], id.len() as int));
    assert forall|j: int| 0 <= j < id.len() implies !occurs_at(s, seq!['\n'], j) by {
        if occurs_at(s, seq!['\n'], j) {
            assert(s.subrange(j, j + 1)[0] == s[j]);
            assert(s[j] == '\n');
            assert(s[j] == id[j]);
        }
    }
    lemma_find_from_some(s, seq!['\n'], 0, id.len() as int);
    assert(s.subrange(0, id.len() as int) =~= id);
}

} // verus!
