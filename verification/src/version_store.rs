//! The version marker: a single trimmed string recording which version is
//! installed on disk.

use vstd::prelude::*;
use vstd::string::*;

use crate::error::ResolveError;
use crate::text::is_space_char;
use crate::text::is_trimmed;
use crate::text::lemma_drop_leading_is_suffix;
use crate::text::lemma_drop_trailing_is_prefix;
use crate::text::spec_trim;
use crate::text::trim_str;

verus! {

/// Name of the marker file, relative to the working directory.
pub open spec fn marker_file_name() -> Seq<char> {
    ".version"@
}

/// Interpret a raw read of the marker file: trim the contents, or wrap the
/// read error.
pub fn read_version_file(raw: Result<String, String>) -> (r: Result<String, ResolveError>)
    ensures
        raw matches Ok(s) ==> (r matches Ok(t) && t@ == spec_trim(s@)),
        raw matches Err(e) ==> (r matches Err(ResolveError::FilesystemFailure(m)) && m@
            == "Failed to read version file: "@ + e@),
{
    match raw {
        Result::Ok(s) => Result::Ok(trim_str(s.as_str())),
        Result::Err(e) => {
            let mut m = "Failed to read version file: ".to_owned();
            m.append(e.as_str());
            Result::Err(ResolveError::FilesystemFailure(m))
        },
    }
}

/// Round trip of the version store: a marker written as a trimmed version
/// followed by any run of trailing whitespace reads back as exactly that
/// version.
pub proof fn lemma_marker_round_trip(v: Seq<char>, pad: Seq<char>)
    requires
        is_trimmed(v),
        forall|k: int| 0 <= k < pad.len() ==> is_space_char(#[trigger] pad[k]),
    ensures
        spec_trim(v + pad) == v,
{
    let s = v + pad;
    if v.len() == 0 {
        assert forall|k: int| 0 <= k < s.len() implies is_space_char(#[trigger] s[k]) by {
            assert(s[k] == pad[k]);
        }
        lemma_drop_leading_is_suffix(s, s.len() as int);
        let t = s.subrange(s.len() as int, s.len() as int);
        lemma_drop_trailing_is_prefix(t, 0);
        assert(t.subrange(0, 0) =~= v);
    } else {
        assert(!is_space_char(s[0]));
        lemma_drop_leading_is_suffix(s, 0);
        assert(s.subrange(0, s.len() as int) =~= s);
        assert forall|k: int| v.len() <= k < s.len() implies is_space_char(#[trigger] s[k]) by {
            assert(s[k] == pad[k - v.len()]);
        }
        assert(!is_space_char(s[v.len() - 1]));
        lemma_drop_trailing_is_prefix(s, v.len() as int);
        assert(s.subrange(0, v.len() as int) =~= v);
    }
}

/// A version already free of surrounding whitespace reads back unchanged.
pub proof fn lemma_trim_of_trimmed(v: Seq<char>)
    requires
        is_trimmed(v),
    ensures
        spec_trim(v) == v,
{
    lemma_marker_round_trip(v, Seq::<char>::empty());
    assert(v + Seq::<char>::empty() =~= v);
}

} // verus!
