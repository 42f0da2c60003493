//! Turning one input path into the list of image paths to process.
use vstd::prelude::*;

verus! {

/// What the file system says about the input path.
pub enum PathInfo {
    /// Nothing exists at the path.
    Missing,
    /// The path names a regular file.
    File,
    /// The path names a directory; these are the paths of the entries that could be read.
    Directory(Vec<String>),
    /// The path exists but is neither a file nor a directory.
    Other,
}

/// Why an input path cannot be processed at all.
#[derive(Clone, Copy, Debug, PartialEq, Eq, Structural)]
pub enum ResolveError {
    /// Nothing exists at the path.
    InvalidPath,
    /// A file whose extension is not an image extension.
    NotAnImage,
    /// A file whose extension cannot be determined.
    NoExtension,
    /// Neither a file nor a directory.
    NotFileOrDirectory,
}

/// Position of the last `c` in `s`, or -1.
pub open spec fn last_index_of(s: Seq<char>, c: char) -> int
    decreases s.len(),
{
    if s.len() == 0 {
        -1
    } else if s.last() == c {
        s.len() - 1
    } else {
        last_index_of(s.drop_last(), c)
    }
}

/// The extension of a file name: what follows its last `.`, unless that dot
/// is missing or is the first character of the name.
pub open spec fn extension_of(name: Seq<char>) -> Option<Seq<char>> {
    let i = last_index_of(name, '.');
    if i <= 0 {
        None
    } else {
        Some(name.subrange(i + 1, name.len() as int))
    }
}

/// `c` equals the lower-case letter `t`, or is its ASCII upper-case form.
pub open spec fn char_eq_ignore_case(c: char, t: char) -> bool {
    c == t || ('A' <= c && c <= 'Z' && (c as u32) + 32 == t as u32)
}

pub open spec fn eq_ignore_case(s: Seq<char>, t: Seq<char>) -> bool {
    s.len() == t.len() && forall|i: int| 0 <= i < s.len() ==> char_eq_ignore_case(s[i], t[i])
}

/// The image extensions, in lower case.
pub open spec fn image_extensions() -> Seq<Seq<char>> {
    seq![
        seq!['j', 'p', 'g'],
        seq!['j', 'p', 'e', 'g'],
        seq!['p', 'n', 'g'],
        seq!['g', 'i', 'f'],
        seq!['b', 'm', 'p'],
        seq!['t', 'i', 'f', 'f'],
        seq!['w', 'e', 'b', 'p'],
        seq!['a', 'v', 'i', 'f'],
    ]
}

/// `ext` is one of the image extensions, whatever its case.
pub open spec fn is_image_ext(ext: Seq<char>) -> bool {
    exists|k: int| 0 <= k < image_extensions().len() && eq_ignore_case(ext, #[trigger] image_extensions()[k])
}

proof fn lemma_last_index_of(s: Seq<char>, c: char, k: int)
    requires
        -1 <= k < s.len(),
        k >= 0 ==> s[k] == c,
        forall|j: int| k < j < s.len() ==> s[j] != c,
    ensures
        last_index_of(s, c) == k,
    decreases s.len(),
{
    if s.len() > 0 && s.last() != c {
        lemma_last_index_of(s.drop_last(), c, k);
    }
}

/// The extension of a file name (see `extension_of`).
pub fn file_extension(name: &str) -> (r: Option<String>)
    ensures
        r matches Some(e) ==> extension_of(name@) == Some(e@),
        r is None ==> extension_of(name@) is None,
{
    let len = name.unicode_len();
    let mut i: usize = len;
    while i > 0 && name.get_char(i - 1) != '.'
        invariant
            i <= len == name@.len(),
            forall|j: int| i <= j < len ==> name@[j] != '.',
        decreases i,
    {
        i = i - 1;
    }
    // the last dot, if any, is at `i - 1`
    proof {
        lemma_last_index_of(name@, '.', i - 1);
    }
    if i <= 1 {
        None
    } else {
        Some(name.substring_char(i, len).to_owned())
    }
}

fn eq_ignore_case_exec(s: &str, t: &str) -> (r: bool)
    ensures
        r == eq_ignore_case(s@, t@),
{
    let n = s.unicode_len();
    if n != t.unicode_len() {
        return false;
    }
    let mut i: usize = 0;
    while i < n
        invariant
            n == s@.len() == t@.len(),
            i <= n,
            forall|j: int| 0 <= j < i ==> char_eq_ignore_case(s@[j], t@[j]),
        decreases n - i,
    {
        let c = s.get_char(i);
        let d = t.get_char(i);
        if !(c == d || ('A' <= c && c <= 'Z' && (c as u32) + 32 == d as u32)) {
            return false;
        }
        i = i + 1;
    }
    true
}

/// Whether `ext` is an image extension (jpg, jpeg, png, gif, bmp, tiff, webp,
/// avif), compared without regard to ASCII case. No other character's lower-case
/// form is an ASCII letter of these names, so this agrees with comparing full
/// Unicode lower-case forms.
pub fn is_image_extension(ext: &str) -> (r: bool)
    ensures
        r == is_image_ext(ext@),
{
    proof {
        reveal_strlit("jpg");
        reveal_strlit("jpeg");
        reveal_strlit("png");
        reveal_strlit("gif");
        reveal_strlit("bmp");
        reveal_strlit("tiff");
        reveal_strlit("webp");
        reveal_strlit("avif");
        assert(image_extensions()[0] =~= "jpg"@);
        assert(image_extensions()[1] =~= "jpeg"@);
        assert(image_extensions()[2] =~= "png"@);
        assert(image_extensions()[3] =~= "gif"@);
        assert(image_extensions()[4] =~= "bmp"@);
        assert(image_extensions()[5] =~= "tiff"@);
        assert(image_extensions()[6] =~= "webp"@);
        assert(image_extensions()[7] =~= "avif"@);
    }
    let r = eq_ignore_case_exec(ext, "jpg") || eq_ignore_case_exec(ext, "jpeg")
        || eq_ignore_case_exec(ext, "png") || eq_ignore_case_exec(ext, "gif")
        || eq_ignore_case_exec(ext, "bmp") || eq_ignore_case_exec(ext, "tiff")
        || eq_ignore_case_exec(ext, "webp") || eq_ignore_case_exec(ext, "avif");
    proof {
        if !r {
            assert forall|k: int| 0 <= k < image_extensions().len() implies !eq_ignore_case(
                ext@,
                #[trigger] image_extensions()[k],
            ) by {}
        }
    }
    r
}

/// The view of an optional string.
pub open spec fn opt_view(o: Option<String>) -> Option<Seq<char>> {
    match o {
        Some(s) => Some(s@),
        None => None,
    }
}

/// The last component of a path, if it is a normal one (see `file_name_of`).
pub uninterp spec fn path_file_name(path: Seq<char>) -> Option<Seq<char>>;

/// Relies on `std::path::Path::file_name`: the last component of the path, none
/// when the path ends in `..` or is a root. The name of a path given as a `str`
/// is valid UTF-8, so the lossy conversion keeps it unchanged.
#[verifier::external_body]
pub(crate) fn file_name_of(path: &str) -> (r: Option<String>)
    ensures
        opt_view(r) == path_file_name(path@),
{
    match std::path::Path::new(path).file_name() {
        Some(n) => Some(n.to_string_lossy().into_owned()),
        None => None,
    }
}

/// Whether a file with this name may be processed as an image.
pub open spec fn check_file_name(name: Option<Seq<char>>) -> Result<(), ResolveError> {
    match name {
        None => Err(ResolveError::NoExtension),
        Some(n) => match extension_of(n) {
            None => Err(ResolveError::NoExtension),
            Some(e) => if is_image_ext(e) {
                Ok(())
            } else {
                Err(ResolveError::NotAnImage)
            },
        },
    }
}

/// The work list for an input that is a file whose name is `file_name`: the
/// input itself when its extension is an image extension.
pub fn resolve_file(input: &String, file_name: &Option<String>) -> (r: Result<Vec<String>, ResolveError>)
    ensures
        r is Ok <==> check_file_name(opt_view(*file_name)) is Ok,
        r matches Ok(v) ==> v@.len() == 1 && v@[0]@ == input@,
        r matches Err(e) ==> check_file_name(opt_view(*file_name)) == Err::<(), ResolveError>(e),
{
    match file_name {
        None => Err(ResolveError::NoExtension),
        Some(n) => match file_extension(n.as_str()) {
            None => Err(ResolveError::NoExtension),
            Some(e) => if is_image_extension(e.as_str()) {
                Ok(vec![input.clone()])
            } else {
                Err(ResolveError::NotAnImage)
            },
        },
    }
}

/// The work list for an input path: the path itself for an image file, every
/// readable entry of a directory (in the order given, with no filtering), or
/// the reason the input is refused.
pub fn resolve(input: &String, info: PathInfo) -> (r: Result<Vec<String>, ResolveError>)
    ensures
        info is Missing ==> r == Err::<Vec<String>, ResolveError>(ResolveError::InvalidPath),
        info is Other ==> r == Err::<Vec<String>, ResolveError>(ResolveError::NotFileOrDirectory),
        info matches PathInfo::Directory(entries) ==> r matches Ok(v) && v@ == entries@,
        info is File ==> (r is Ok <==> check_file_name(path_file_name(input@)) is Ok),
        info is File ==> (r matches Ok(v) ==> v@.len() == 1 && v@[0]@ == input@),
        info is File ==> (r matches Err(e) ==> check_file_name(path_file_name(input@)) == Err::<
            (),
            ResolveError,
        >(e)),
{
    match info {
        PathInfo::Missing => Err(ResolveError::InvalidPath),
        PathInfo::File => {
            let name = file_name_of(input.as_str());
            resolve_file(input, &name)
        },
        PathInfo::Directory(entries) => Ok(entries),
        PathInfo::Other => Err(ResolveError::NotFileOrDirectory),
    }
}

} // verus!
