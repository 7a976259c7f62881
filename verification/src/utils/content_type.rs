//! Content-type inference from a file name's extension.

use crate::utils::text::chars_of;
use vstd::prelude::*;

verus! {

/// The lower-case form of an ASCII capital letter; any other character
/// is left as it is.
///
/// Only ASCII letters are folded. The table below is keyed by ASCII
/// words, and the one non-ASCII character whose lower-case form is an
/// ASCII letter, the Kelvin sign, lowers to a `k`, which no key holds: so
/// folding further letters could not change what a name is mapped to.
pub open spec fn ascii_lower(c: char) -> char {
    if 'A' <= c && c <= 'Z' {
        ((c as int) + 32) as char
    } else {
        c
    }
}

/// `s` with every ASCII capital letter replaced by its lower-case form.
pub open spec fn lowered(s: Seq<char>) -> Seq<char> {
    Seq::new(s.len(), |i: int| ascii_lower(s[i]))
}

/// The position of the last `c` in `s`, or `-1` if `s` holds none.
pub open spec fn last_index_of(s: Seq<char>, c: char) -> int
    decreases s.len(),
{
    if s.len() == 0 {
        -1
    } else if s.last() == c {
        s.len() - 1
    } else {
        last_index_of(s.drop_last(), c)
    }
}

/// The extension of a file name: what follows its last `.`. A name
/// without a `.` has the empty extension.
pub open spec fn extension_of(name: Seq<char>) -> Seq<char> {
    let dot = last_index_of(name, '.');
    if dot < 0 {
        Seq::empty()
    } else {
        name.subrange(dot + 1, name.len() as int)
    }
}

/// The MIME type registered for a lower-case extension, and the generic
/// binary type for every other word.
pub open spec fn mime_for_extension(ext: Seq<char>) -> Seq<char> {
    if ext == "jpg"@ || ext == "jpeg"@ {
        "image/jpeg"@
    } else if ext == "png"@ {
        "image/png"@
    } else if ext == "gif"@ {
        "image/gif"@
    } else if ext == "webp"@ {
        "image/webp"@
    } else if ext == "svg"@ {
        "image/svg+xml"@
    } else if ext == "bmp"@ {
        "image/bmp"@
    } else if ext == "ico"@ {
        "image/x-icon"@
    } else if ext == "pdf"@ {
        "application/pdf"@
    } else if ext == "doc"@ {
        "application/msword"@
    } else if ext == "docx"@ {
        "application/vnd.openxmlformats-officedocument.wordprocessingml.document"@
    } else if ext == "xls"@ {
        "application/vnd.ms-excel"@
    } else if ext == "xlsx"@ {
        "application/vnd.openxmlformats-officedocument.spreadsheetml.sheet"@
    } else if ext == "ppt"@ {
        "application/vnd.ms-powerpoint"@
    } else if ext == "pptx"@ {
        "application/vnd.openxmlformats-officedocument.presentationml.presentation"@
    } else if ext == "txt"@ {
        "text/plain"@
    } else if ext == "md"@ {
        "text/markdown"@
    } else if ext == "html"@ || ext == "htm"@ {
        "text/html"@
    } else if ext == "css"@ {
        "text/css"@
    } else if ext == "js"@ {
        "text/javascript"@
    } else if ext == "json"@ {
        "application/json"@
    } else if ext == "xml"@ {
        "text/xml"@
    } else if ext == "csv"@ {
        "text/csv"@
    } else if ext == "mp3"@ {
        "audio/mpeg"@
    } else if ext == "wav"@ {
        "audio/wav"@
    } else if ext == "ogg"@ {
        "audio/ogg"@
    } else if ext == "flac"@ {
        "audio/flac"@
    } else if ext == "mp4"@ {
        "video/mp4"@
    } else if ext == "avi"@ {
        "video/x-msvideo"@
    } else if ext == "mov"@ {
        "video/quicktime"@
    } else if ext == "wmv"@ {
        "video/x-ms-wmv"@
    } else if ext == "flv"@ {
        "video/x-flv"@
    } else if ext == "webm"@ {
        "video/webm"@
    } else if ext == "zip"@ {
        "application/zip"@
    } else if ext == "rar"@ {
        "application/x-rar-compressed"@
    } else if ext == "7z"@ {
        "application/x-7z-compressed"@
    } else if ext == "tar"@ {
        "application/x-tar"@
    } else if ext == "gz"@ {
        "application/gzip"@
    } else {
        "application/octet-stream"@
    }
}

/// The content type of a file called `name`.
pub open spec fn content_type_spec(name: Seq<char>) -> Seq<char> {
    mime_for_extension(lowered(extension_of(name)))
}

/// `last_index_of` finds a position that holds `c` and has no `c` after
/// it, and reports `-1` exactly when `s` holds no `c` at all.
pub proof fn lemma_last_index_of(s: Seq<char>, c: char)
    ensures
        -1 <= last_index_of(s, c) < s.len(),
        last_index_of(s, c) >= 0 ==> s[last_index_of(s, c)] == c,
        forall|j: int| last_index_of(s, c) < j < s.len() ==> s[j] != c,
    decreases s.len(),
{
    if s.len() > 0 && s.last() != c {
        let front = s.drop_last();
        lemma_last_index_of(front, c);
        assert forall|j: int| last_index_of(s, c) < j < s.len() implies s[j] != c by {
            if j < front.len() {
                assert(s[j] == front[j]);
            }
        }
    }
}

/// An extension never holds a `.`, and a name that holds a `.` is its
/// stem, a `.` and its extension.
pub proof fn lemma_extension_splits_name(name: Seq<char>)
    ensures
        !extension_of(name).contains('.'),
        name.contains('.') ==> exists|stem: Seq<char>|
            name == stem + seq!['.'] + extension_of(name),
        !name.contains('.') ==> extension_of(name).len() == 0,
{
    lemma_last_index_of(name, '.');
    let dot = last_index_of(name, '.');
    let ext = extension_of(name);
    if dot >= 0 {
        assert forall|k: int| 0 <= k < ext.len() implies ext[k] != '.' by {
            assert(ext[k] == name[dot + 1 + k]);
        }
        let stem = name.subrange(0, dot);
        assert(name =~= stem + seq!['.'] + ext);
    } else {
        assert forall|k: int| 0 <= k < name.len() implies name[k] != '.' by {}
    }
}

fn lower_char(c: char) -> (res: char)
    ensures
        res == ascii_lower(c),
{
    if 'A' <= c && c <= 'Z' {
        ((c as u8) + 32) as char
    } else {
        c
    }
}

fn is_text(v: &Vec<char>, word: &str) -> (res: bool)
    ensures
        res == (v@ == word@),
{
    let n = word.unicode_len();
    if v.len() != n {
        return false;
    }
    let mut i: usize = 0;
    while i < n
        invariant
            n == word@.len(),
            n == v.len(),
            i <= n,
            forall|k: int| 0 <= k < i ==> v@[k] == word@[k],
        decreases n - i,
    {
        if v[i] != word.get_char(i) {
            return false;
        }
        i += 1;
    }
    assert(v@ =~= word@);
    true
}

/// The lowered extension of the name whose characters are `name`.
fn lowered_extension(name: &Vec<char>) -> (res: Vec<char>)
    ensures
        res@ == lowered(extension_of(name@)),
{
    let n = name.len();
    let mut start: usize = n;
    let mut found = false;
    let mut i: usize = 0;
    while i < n
        invariant
            n == name.len(),
            i <= n,
            found ==> start < i,
            found == (last_index_of(name@.subrange(0, i as int), '.') >= 0),
            found ==> start == last_index_of(name@.subrange(0, i as int), '.'),
        decreases n - i,
    {
        let ghost before = name@.subrange(0, i as int);
        let ghost after = name@.subrange(0, i + 1);
        assert(after.drop_last() =~= before);
        assert(after.last() == name@[i as int]);
        if name[i] == '.' {
            start = i;
            found = true;
        }
        i += 1;
    }
    assert(name@.subrange(0, n as int) =~= name@);
    let mut res: Vec<char> = Vec::new();
    if !found {
        assert(res@ =~= lowered(extension_of(name@)));
        return res;
    }
    let ghost ext = extension_of(name@);
    let mut j: usize = start + 1;
    while j < n
        invariant
            n == name.len(),
            start < n,
            start + 1 <= j <= n,
            ext == name@.subrange(start + 1, n as int),
            res@.len() == j - (start + 1),
            forall|k: int| 0 <= k < res@.len() ==> res@[k] == ascii_lower(ext[k]),
        decreases n - j,
    {
        res.push(lower_char(name[j]));
        j += 1;
    }
    assert(res@ =~= lowered(ext));
    res
}

fn lookup(ext: &Vec<char>) -> (res: &'static str)
    ensures
        res@ == mime_for_extension(ext@),
{
    if is_text(ext, "jpg") || is_text(ext, "jpeg") {
        "image/jpeg"
    } else if is_text(ext, "png") {
        "image/png"
    } else if is_text(ext, "gif") {
        "image/gif"
    } else if is_text(ext, "webp") {
        "image/webp"
    } else if is_text(ext, "svg") {
        "image/svg+xml"
    } else if is_text(ext, "bmp") {
        "image/bmp"
    } else if is_text(ext, "ico") {
        "image/x-icon"
    } else if is_text(ext, "pdf") {
        "application/pdf"
    } else if is_text(ext, "doc") {
        "application/msword"
    } else if is_text(ext, "docx") {
        "application/vnd.openxmlformats-officedocument.wordprocessingml.document"
    } else if is_text(ext, "xls") {
        "application/vnd.ms-excel"
    } else if is_text(ext, "xlsx") {
        "application/vnd.openxmlformats-officedocument.spreadsheetml.sheet"
    } else if is_text(ext, "ppt") {
        "application/vnd.ms-powerpoint"
    } else if is_text(ext, "pptx") {
        "application/vnd.openxmlformats-officedocument.presentationml.presentation"
    } else if is_text(ext, "txt") {
        "text/plain"
    } else if is_text(ext, "md") {
        "text/markdown"
    } else if is_text(ext, "html") || is_text(ext, "htm") {
        "text/html"
    } else if is_text(ext, "css") {
        "text/css"
    } else if is_text(ext, "js") {
        "text/javascript"
    } else if is_text(ext, "json") {
        "application/json"
    } else if is_text(ext, "xml") {
        "text/xml"
    } else if is_text(ext, "csv") {
        "text/csv"
    } else if is_text(ext, "mp3") {
        "audio/mpeg"
    } else if is_text(ext, "wav") {
        "audio/wav"
    } else if is_text(ext, "ogg") {
        "audio/ogg"
    } else if is_text(ext, "flac") {
        "audio/flac"
    } else if is_text(ext, "mp4") {
        "video/mp4"
    } else if is_text(ext, "avi") {
        "video/x-msvideo"
    } else if is_text(ext, "mov") {
        "video/quicktime"
    } else if is_text(ext, "wmv") {
        "video/x-ms-wmv"
    } else if is_text(ext, "flv") {
        "video/x-flv"
    } else if is_text(ext, "webm") {
        "video/webm"
    } else if is_text(ext, "zip") {
        "application/zip"
    } else if is_text(ext, "rar") {
        "application/x-rar-compressed"
    } else if is_text(ext, "7z") {
        "application/x-7z-compressed"
    } else if is_text(ext, "tar") {
        "application/x-tar"
    } else if is_text(ext, "gz") {
        "application/gzip"
    } else {
        "application/octet-stream"
    }
}

/// Infers a MIME type from a file name: the extension after the last `.`
/// is looked up without regard to ASCII case, and a name with an unknown
/// extension, or with none, is given the generic binary type.
pub fn guess_content_type(filename: &str) -> (res: String)
    ensures
        res@ == content_type_spec(filename@),
{
    let name = chars_of(filename);
    let ext = lowered_extension(&name);
    lookup(&ext).to_string()
}

} // verus!
