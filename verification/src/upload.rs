//! File uploads: where an uploaded file is stored and what link it gets.
//!
//! The stored name is ten random letters and digits; the extension comes from
//! the uploaded file's name when it has one, else from its MIME type.
use vstd::prelude::*;
use rand::distributions::Alphanumeric;
use rand::Rng;
use crate::text::{chars_of, join, lowercase, owned, str_eq, to_lowercase};

verus! {

/// The uploaded file, as far as the handler reads it: its (sanitized) name
/// and its content type, each when the request gave one.
#[derive(Debug, PartialEq, Eq)]
pub struct Upload {
    pub name: Option<String>,
    pub content_type: Option<String>,
}

/// The upload page: the stored file's link, or an error.
#[derive(Debug, PartialEq, Eq)]
pub enum UploadPage {
    Link(String),
    Error(String),
}

/// Where an upload is to be stored (`file_link`, relative to the working
/// directory) and the link it will be served under.
#[derive(Debug, PartialEq, Eq)]
pub struct SavePlan {
    pub file_link: String,
    pub link: String,
}

pub open spec fn is_alphanumeric(c: char) -> bool {
    ('0' <= c && c <= '9') || ('a' <= c && c <= 'z') || ('A' <= c && c <= 'Z')
}

/// Calls `rand::thread_rng().sample_iter(&Alphanumeric)`, takes `len`
/// samples and turns each byte into a `char`.
/// Claimed: `len` characters, each an ASCII letter or digit (the alphabet
/// `Alphanumeric` samples from). Which ones is random and not claimed.
#[verifier::external_body]
fn random_alphanumeric(len: usize) -> (s: String)
    ensures
        s@.len() == len,
        forall|i: int| 0 <= i < len ==> is_alphanumeric(#[trigger] s@[i]),
{
    rand::thread_rng().sample_iter(&Alphanumeric).take(len).map(char::from).collect()
}

/// The index of the last `c` in `s`, or -1 when there is none.
pub open spec fn last_index_of(s: Seq<char>, c: char) -> int
    decreases s.len(),
{
    if s.len() == 0 {
        -1
    } else if s.last() == c {
        s.len() - 1
    } else {
        last_index_of(s.drop_last(), c)
    }
}

proof fn lemma_last_index_of(s: Seq<char>, c: char)
    ensures
        -1 <= last_index_of(s, c) < s.len(),
        last_index_of(s, c) >= 0 ==> s[last_index_of(s, c)] == c,
        forall|k: int| last_index_of(s, c) < k < s.len() ==> #[trigger] s[k] != c,
    decreases s.len(),
{
    if s.len() > 0 && s.last() != c {
        lemma_last_index_of(s.drop_last(), c);
        assert forall|k: int| last_index_of(s, c) < k < s.len() implies #[trigger] s[k] != c by {
            if k < s.len() - 1 {
                assert(s[k] == s.drop_last()[k]);
            }
        }
    }
}

proof fn lemma_last_index_unique(s: Seq<char>, c: char, i: int)
    requires
        -1 <= i < s.len(),
        i >= 0 ==> s[i] == c,
        forall|k: int| i < k < s.len() ==> #[trigger] s[k] != c,
    ensures
        last_index_of(s, c) == i,
    decreases s.len(),
{
    if s.len() > 0 && i < s.len() - 1 {
        assert(s.last() != c);
        assert forall|k: int| i < k < s.len() - 1 implies #[trigger] s.drop_last()[k] != c by {
            assert(s.drop_last()[k] == s[k]);
        }
        lemma_last_index_unique(s.drop_last(), c, i);
    }
}

/// The final component of a Unix path, as `Path::file_name` gives it: the
/// last `/`-separated segment that is neither empty nor `.`, unless that
/// segment is `..`; nothing when there is no such segment.
pub open spec fn file_name(p: Seq<char>) -> Option<Seq<char>>
    decreases p.len(),
{
    let k = last_index_of(p, '/');
    let seg = p.subrange(k + 1, p.len() as int);
    if seg.len() == 0 || seg == seq!['.'] {
        if k < 0 || k >= p.len() {
            None
        } else {
            file_name(p.subrange(0, k))
        }
    } else if seg == seq!['.', '.'] {
        None
    } else {
        Some(seg)
    }
}

/// The extension of a file name, as `Path::extension` takes it: the text
/// after the last `.`, when there is a `.` that is not the name's first
/// character.
pub open spec fn extension_of(name: Seq<char>) -> Option<Seq<char>> {
    let k = last_index_of(name, '.');
    if name == seq!['.', '.'] || k <= 0 || k >= name.len() {
        None
    } else {
        Some(name.subrange(k + 1, name.len() as int))
    }
}

/// The extension of a Unix path, as `Path::extension` gives it.
pub open spec fn path_extension(p: Seq<char>) -> Option<Seq<char>> {
    match file_name(p) {
        Some(name) => extension_of(name),
        None => None,
    }
}

fn last_index(v: &Vec<char>, end: usize, c: char) -> (r: Option<usize>)
    requires
        end <= v@.len(),
    ensures
        match r {
            Some(k) => k as int == last_index_of(v@.subrange(0, end as int), c),
            None => last_index_of(v@.subrange(0, end as int), c) == -1,
        },
{
    let ghost s = v@.subrange(0, end as int);
    let mut j: usize = end;
    while j > 0
        invariant
            j <= end <= v@.len(),
            s == v@.subrange(0, end as int),
            forall|k: int| j <= k < end ==> #[trigger] s[k] != c,
        decreases j,
    {
        if v[j - 1] == c {
            proof {
                lemma_last_index_unique(s, c, j - 1);
            }
            return Some(j - 1);
        }
        j = j - 1;
    }
    proof {
        lemma_last_index_unique(s, c, -1);
    }
    None
}

fn string_of(v: &Vec<char>, lo: usize, hi: usize) -> (r: String)
    requires
        lo <= hi <= v@.len(),
    ensures
        r@ == v@.subrange(lo as int, hi as int),
{
    let mut r = String::new();
    let mut i = lo;
    while i < hi
        invariant
            lo <= i <= hi <= v@.len(),
            r@ == v@.subrange(lo as int, i as int),
        decreases hi - i,
    {
        r.push(v[i]);
        assert(v@.subrange(lo as int, i + 1) =~= v@.subrange(lo as int, i as int).push(v@[i as int]));
        i = i + 1;
    }
    r
}

fn seg_is(v: &Vec<char>, lo: usize, hi: usize, dots: usize) -> (b: bool)
    requires
        lo <= hi <= v@.len(),
        1 <= dots <= 2,
    ensures
        b == (v@.subrange(lo as int, hi as int) == if dots == 1 {
            seq!['.']
        } else {
            seq!['.', '.']
        }),
{
    let ghost seg = v@.subrange(lo as int, hi as int);
    if hi - lo != dots {
        assert(seq!['.'].len() == 1);
        assert(seq!['.', '.'].len() == 2);
        return false;
    }
    if dots == 1 {
        let b = v[lo] == '.';
        assert(b ==> seg =~= seq!['.']);
        assert(seg == seq!['.'] ==> seg[0] == '.');
        b
    } else {
        let b = v[lo] == '.' && v[lo + 1] == '.';
        assert(b ==> seg =~= seq!['.', '.']);
        assert(seg == seq!['.', '.'] ==> seg[0] == '.' && seg[1] == '.');
        b
    }
}

/// The bounds of the final component of the path `v`, as `Path::file_name`
/// finds it.
fn file_name_bounds(v: &Vec<char>) -> (r: Option<(usize, usize)>)
    ensures
        match r {
            Some((lo, hi)) => lo <= hi <= v@.len() && file_name(v@) == Some(
                v@.subrange(lo as int, hi as int),
            ),
            None => file_name(v@) is None,
        },
{
    let mut end = v.len();
    assert(v@.subrange(0, end as int) =~= v@);
    // segments after `end` are empty or `.`
    loop
        invariant
            end <= v@.len(),
            file_name(v@) == file_name(v@.subrange(0, end as int)),
        decreases end,
    {
        let ghost p = v@.subrange(0, end as int);
        let k = last_index(v, end, '/');
        proof {
            lemma_last_index_of(p, '/');
        }
        let start: usize = match k {
            Some(k) => k + 1,
            None => 0,
        };
        let ghost seg = p.subrange(last_index_of(p, '/') + 1, p.len() as int);
        assert(seg =~= v@.subrange(start as int, end as int));
        if start == end || seg_is(v, start, end, 1) {
            match k {
                Some(k) => {
                    assert(p.subrange(0, k as int) =~= v@.subrange(0, k as int));
                    end = k;
                },
                None => {
                    return None;
                },
            }
        } else if seg_is(v, start, end, 2) {
            return None;
        } else {
            return Some((start, end));
        }
    }
}

/// The extension of the file name `v[lo..hi]`, as `Path::extension` takes it.
fn name_extension(v: &Vec<char>, lo: usize, hi: usize) -> (r: Option<String>)
    requires
        lo <= hi <= v@.len(),
    ensures
        match r {
            Some(e) => extension_of(v@.subrange(lo as int, hi as int)) == Some(e@),
            None => extension_of(v@.subrange(lo as int, hi as int)) is None,
        },
{
    let ghost name = v@.subrange(lo as int, hi as int);
    let ghost full = v@.subrange(0, hi as int);
    if seg_is(v, lo, hi, 2) {
        return None;
    }
    let d = last_index(v, hi, '.');
    proof {
        lemma_last_index_of(full, '.');
        lemma_last_index_of(name, '.');
    }
    match d {
        Some(d) => {
            if d <= lo {
                proof {
                    let q = last_index_of(name, '.');
                    if q >= 0 {
                        assert(name[q] == full[lo + q]);
                    }
                }
                return None;
            }
            proof {
                assert forall|x: int| (d - lo) < x < name.len() implies #[trigger] name[x] != '.' by {
                    assert(name[x] == full[lo + x]);
                }
                assert(name[d - lo] == full[d as int]);
                lemma_last_index_unique(name, '.', d - lo);
                assert(name.subrange(d - lo + 1, name.len() as int) =~= v@.subrange(
                    d + 1,
                    hi as int,
                ));
            }
            Some(string_of(v, d + 1, hi))
        },
        None => {
            proof {
                assert forall|x: int| -1 < x < name.len() implies #[trigger] name[x] != '.' by {
                    assert(name[x] == full[lo + x]);
                }
                lemma_last_index_unique(name, '.', -1);
            }
            None
        },
    }
}

/// The extension of the Unix path `path`, as `Path::extension` gives it.
pub fn extension(path: &str) -> (r: Option<String>)
    ensures
        match r {
            Some(e) => path_extension(path@) == Some(e@),
            None => path_extension(path@) is None,
        },
{
    let v = chars_of(path);
    match file_name_bounds(&v) {
        Some((lo, hi)) => name_extension(&v, lo, hi),
        None => None,
    }
}

/// The extension a MIME type stands for, among those the upload accepts.
pub open spec fn mime_extension(content_type: Seq<char>) -> Option<Seq<char>> {
    if content_type == "image/png"@ {
        Some("png"@)
    } else if content_type == "image/jpeg"@ {
        Some("jpg"@)
    } else if content_type == "image/gif"@ {
        Some("gif"@)
    } else if content_type == "application/pdf"@ {
        Some("pdf"@)
    } else if content_type == "text/plain"@ {
        Some("txt"@)
    } else {
        None
    }
}

fn mime_to_extension(content_type: &str) -> (r: Option<String>)
    ensures
        match r {
            Some(e) => mime_extension(content_type@) == Some(e@),
            None => mime_extension(content_type@) is None,
        },
{
    if str_eq(content_type, "image/png") {
        Some(owned("png"))
    } else if str_eq(content_type, "image/jpeg") {
        Some(owned("jpg"))
    } else if str_eq(content_type, "image/gif") {
        Some(owned("gif"))
    } else if str_eq(content_type, "application/pdf") {
        Some(owned("pdf"))
    } else if str_eq(content_type, "text/plain") {
        Some(owned("txt"))
    } else {
        None
    }
}

/// The extension an upload is stored with, or the error it is refused with:
/// the lowercased extension of its name; else, for a name without
/// extension, the one its MIME type stands for; a name-less upload, and one
/// whose type is missing or not accepted, are refused.
pub open spec fn upload_extension(name: Option<Seq<char>>, content_type: Option<Seq<char>>) -> Result<Seq<char>, Seq<char>> {
    match name {
        None => Err("No filename!"@),
        Some(n) => match path_extension(n) {
            Some(e) => Ok(lowercase(e)),
            None => match content_type {
                None => Err("No extension and no MIME"@),
                Some(ct) => match mime_extension(ct) {
                    Some(e) => Ok(e),
                    None => Err("Unsupported MIME: "@ + ct),
                },
            },
        },
    }
}

/// Law: when the file's name has an extension, the upload is stored with
/// all of that extension, lowercased, whatever its MIME type.
pub proof fn name_extension_is_kept_whole(name: Seq<char>, content_type: Option<Seq<char>>)
    requires
        path_extension(name) is Some,
    ensures
        upload_extension(Some(name), content_type) == Ok::<Seq<char>, Seq<char>>(
            lowercase(path_extension(name)->0),
        ),
{
}

/// Law: a plain file name `base.ext` (no `/` in it, `base` not empty, no `.`
/// in `ext`, and not `..`) has the extension `ext`, all of it.
pub proof fn plain_name_extension(base: Seq<char>, ext: Seq<char>)
    requires
        base.len() > 0,
        !base.contains('/'),
        !ext.contains('/'),
        !ext.contains('.'),
        !(base == seq!['.'] && ext.len() == 0),
    ensures
        path_extension(base + seq!['.'] + ext) == Some(ext),
{
    let name = base + seq!['.'] + ext;
    assert forall|k: int| -1 < k < name.len() implies #[trigger] name[k] != '/' by {
        if k < base.len() {
            assert(name[k] == base[k]);
        } else if k > base.len() {
            assert(name[k] == ext[k - base.len() - 1]);
        }
    }
    lemma_last_index_unique(name, '/', -1);
    assert forall|k: int| base.len() < k < name.len() implies #[trigger] name[k] != '.' by {
        assert(name[k] == ext[k - base.len() - 1]);
    }
    lemma_last_index_unique(name, '.', base.len() as int);
    assert(name.subrange(0, name.len() as int) =~= name);
    assert(name.len() >= 2);
    assert(name != seq!['.']) by {
        assert(seq!['.'].len() == 1);
    }
    if name == seq!['.', '.'] {
        assert(base.len() == 1 && ext.len() == 0);
        assert(base[0] == name[0]);
        assert(base =~= seq!['.']);
    }
    assert(file_name(name) == Some(name));
    assert(name.subrange(base.len() as int + 1, name.len() as int) =~= ext);
}

pub open spec fn opt_chars(o: Option<String>) -> Option<Seq<char>> {
    match o {
        Some(s) => Some(s@),
        None => None,
    }
}

/// Where an upload goes once its stored name `stem` has been drawn:
/// `static/upload/`, `stem`, `.` and the extension; the link is the same path
/// under `/`. `Err` is the page refusing the upload.
pub fn upload_plan(form: &Upload, stem: &str) -> (r: Result<SavePlan, UploadPage>)
    ensures
        match upload_extension(opt_chars(form.name), opt_chars(form.content_type)) {
            Ok(ext) => r matches Ok(plan) && plan.file_link@ == "static/upload/"@ + stem@ + "."@
                + ext && plan.link@ == "/"@ + plan.file_link@,
            Err(message) => r matches Err(UploadPage::Error(m)) && m@ == message,
        },
{
    let ext = match &form.name {
        Some(name) => match extension(name.as_str()) {
            Some(e) => to_lowercase(e.as_str()),
            None => match &form.content_type {
                Some(ct) => match mime_to_extension(ct.as_str()) {
                    Some(e) => e,
                    None => {
                        return Err(UploadPage::Error(join("Unsupported MIME: ", ct.as_str())));
                    },
                },
                None => {
                    return Err(UploadPage::Error(owned("No extension and no MIME")));
                },
            },
        },
        None => {
            return Err(UploadPage::Error(owned("No filename!")));
        },
    };
    let mut file_link = join("static/upload/", stem);
    file_link.append(".");
    file_link.append(ext.as_str());
    let link = join("/", file_link.as_str());
    Ok(SavePlan { file_link, link })
}

/// Where the upload goes: ten random letters and digits are drawn for its
/// stored name, then `upload_plan` places it.
pub fn upload(form: &Upload) -> (r: Result<SavePlan, UploadPage>)
    ensures
        match upload_extension(opt_chars(form.name), opt_chars(form.content_type)) {
            Ok(ext) => r matches Ok(plan) && exists|stem: Seq<char>|
                #![trigger stem.len()]
                stem.len() == 10 && (forall|i: int|
                    0 <= i < 10 ==> is_alphanumeric(#[trigger] stem[i])) && plan.file_link@
                    == "static/upload/"@ + stem + "."@ + ext && plan.link@ == "/"@
                    + plan.file_link@,
            Err(message) => r matches Err(UploadPage::Error(m)) && m@ == message,
        },
{
    let stem = random_alphanumeric(10);
    let r = upload_plan(form, stem.as_str());
    assert(stem@.len() == 10);
    r
}

/// What the upload page shows once the file has been stored: its link, or
/// the storage error.
pub fn upload_finish(plan: SavePlan, saved: Result<(), String>) -> (r: UploadPage)
    ensures
        match saved {
            Ok(_) => r matches UploadPage::Link(l) && l@ == plan.link@,
            Err(e) => r matches UploadPage::Error(m) && m@ == "Save fail: "@ + e@,
        },
{
    match saved {
        Ok(_) => UploadPage::Link(plan.link),
        Err(e) => UploadPage::Error(join("Save fail: ", e.as_str())),
    }
}

} // verus!
