//! The names of the files around a conversion: the container, its staging
//! copy, the backup, and the restored file.

use vstd::prelude::*;
use vstd::string::StrSliceExecFns;

use crate::primitives::{
    has_separator, path_extension, path_extension_of, path_with_extension_of, with_extension,
};

verus! {

/// Text with its leading dots removed.
pub open spec fn trim_dots_spec(s: Seq<char>) -> Seq<char>
    decreases s.len(),
{
    if s.len() > 0 && s[0] == '.' {
        trim_dots_spec(s.drop_first())
    } else {
        s
    }
}

proof fn lemma_trim_dots_skip(s: Seq<char>, i: int)
    requires
        0 <= i < s.len(),
        forall|j: int| 0 <= j <= i ==> s[j] == '.',
    ensures
        trim_dots_spec(s) == trim_dots_spec(s.skip(i + 1)),
    decreases i,
{
    if i == 0 {
        assert(s.drop_first() =~= s.skip(1));
    } else {
        lemma_trim_dots_skip(s, i - 1);
        assert(s.skip(i).drop_first() =~= s.skip(i + 1));
    }
}

/// An extension as given by a caller, without leading dots (`.md` is `md`).
pub fn trim_leading_dots(ext: &str) -> (r: String)
    ensures
        r@ == trim_dots_spec(ext@),
{
    let n = ext.unicode_len();
    let mut i: usize = 0;
    while i < n && ext.get_char(i) == '.'
        invariant
            n == ext@.len(),
            i <= n,
            forall|j: int| 0 <= j < i ==> ext@[j] == '.',
        decreases n - i,
    {
        i = i + 1;
    }
    proof {
        if i > 0 {
            lemma_trim_dots_skip(ext@, i - 1);
        } else {
            assert(ext@.skip(0) =~= ext@);
        }
    }
    let rest = ext.substring_char(i, n);
    assert(rest@ =~= ext@.skip(i as int));
    rest.to_owned()
}

/// Whether the text holds a path separator.
pub fn contains_separator(s: &str) -> (r: bool)
    ensures
        r == has_separator(s@),
{
    let n = s.unicode_len();
    let mut i: usize = 0;
    while i < n
        invariant
            n == s@.len(),
            i <= n,
            forall|j: int| 0 <= j < i ==> s@[j] != '/',
        decreases n - i,
    {
        if s.get_char(i) == '/' {
            return true;
        }
        i = i + 1;
    }
    false
}

/// Whether two texts are the same.
pub fn same_text(a: &str, b: &str) -> (r: bool)
    ensures
        r == (a@ == b@),
{
    let n = a.unicode_len();
    if n != b.unicode_len() {
        return false;
    }
    let mut i: usize = 0;
    while i < n
        invariant
            n == a@.len(),
            n == b@.len(),
            i <= n,
            forall|j: int| 0 <= j < i ==> a@[j] == b@[j],
        decreases n - i,
    {
        if a.get_char(i) != b.get_char(i) {
            return false;
        }
        i = i + 1;
    }
    assert(a@ =~= b@);
    true
}

/// The name of the container for a source file: its extension replaced by
/// `plagr`.
pub fn container_name(source: &str) -> (r: String)
    ensures
        r@ == path_with_extension_of(source@, "plagr"@),
{
    proof {
        reveal_strlit("plagr");
    }
    with_extension(source, "plagr")
}

/// The name under which a container is written before it takes the source's
/// place.
pub fn staging_name(source: &str) -> (r: String)
    ensures
        r@ == path_with_extension_of(source@, "plagr.part"@),
{
    proof {
        reveal_strlit("plagr.part");
    }
    with_extension(source, "plagr.part")
}

/// The name of a file's backup: its extension replaced by `bak`.
pub fn backup_name(path: &str) -> (r: String)
    ensures
        r@ == path_with_extension_of(path@, "bak"@),
{
    proof {
        reveal_strlit("bak");
    }
    with_extension(path, "bak")
}

/// The extension to store in a container: the caller's override without
/// leading dots, else the source's own extension, else empty.
pub fn stored_extension(source: &str, ext_override: Option<&str>) -> (r: String)
    ensures
        ext_override matches Some(o) ==> r@ == trim_dots_spec(o@),
        ext_override is None ==> r@ == match path_extension_of(source@) {
            Some(e) => e,
            None => Seq::<char>::empty(),
        },
{
    match ext_override {
        Some(o) => trim_leading_dots(o),
        None => match path_extension(source) {
            Some(e) => e,
            None => {
                proof {
                    reveal_strlit("");
                }
                "".to_owned()
            },
        },
    }
}

/// The extension that a restored file gets: the caller's override without
/// leading dots, else the extension that the container recorded.
pub open spec fn chosen_extension_spec(recorded: Seq<char>, ext_override: Option<Seq<char>>) -> Seq<
    char,
> {
    match ext_override {
        Some(o) => trim_dots_spec(o),
        None => recorded,
    }
}

/// The restored file's name: the container's name without its extension,
/// then given the chosen extension; none where that extension holds a path
/// separator.
pub open spec fn restored_name_spec(
    container: Seq<char>,
    recorded: Seq<char>,
    ext_override: Option<Seq<char>>,
) -> Option<Seq<char>> {
    let ext = chosen_extension_spec(recorded, ext_override);
    if has_separator(ext) {
        None
    } else {
        Some(path_with_extension_of(path_with_extension_of(container, ""@), ext))
    }
}

pub open spec fn opt_view(o: Option<&str>) -> Option<Seq<char>> {
    match o {
        Some(s) => Some(s@),
        None => None,
    }
}

/// The name of the file restored from a container, or none where the chosen
/// extension holds a path separator.
pub fn restored_name(container: &str, recorded: &str, ext_override: Option<&str>) -> (r: Option<
    String,
>)
    ensures
        r matches Some(n) ==> restored_name_spec(container@, recorded@, opt_view(ext_override))
            == Some(n@),
        r is None <==> restored_name_spec(container@, recorded@, opt_view(ext_override)) is None,
{
    let ext = match ext_override {
        Some(o) => trim_leading_dots(o),
        None => recorded.to_owned(),
    };
    if contains_separator(ext.as_str()) {
        return None;
    }
    proof {
        reveal_strlit("");
    }
    let stem = with_extension(container, "");
    Some(with_extension(stem.as_str(), ext.as_str()))
}

} // verus!
