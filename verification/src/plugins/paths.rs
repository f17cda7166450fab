//! Plugin file names and path joining, per target platform.
use vstd::prelude::*;
use crate::text::{chars_of, concat2, concat3, owned, string_of};

verus! {

/// The platform the engine runs on, as far as file naming and paths go.
#[derive(PartialEq, Eq, Structural, Clone, Copy)]
pub enum TargetOs {
    Windows,
    MacOs,
    /// Linux and other Unix-like systems.
    Other,
}

/// The shared-library file name of plugin `name` (`foo.dll`, `libfoo.dylib`, `libfoo.so`).
pub open spec fn plugin_filename(name: Seq<char>, os: TargetOs) -> Seq<char> {
    match os {
        TargetOs::Windows => name + ".dll"@,
        TargetOs::MacOs => "lib"@ + name + ".dylib"@,
        TargetOs::Other => "lib"@ + name + ".so"@,
    }
}

/// Path separators of the platform.
pub open spec fn is_sep(c: char, os: TargetOs) -> bool {
    c == '/' || (os == TargetOs::Windows && c == '\\')
}

/// A Windows drive prefix such as `C:` starts the path.
pub open spec fn has_drive(s: Seq<char>) -> bool {
    s.len() >= 2 && s[1] == ':' && (('a' <= s[0] && s[0] <= 'z') || ('A' <= s[0] && s[0] <= 'Z'))
}

/// The text of `folder` with `file` pushed onto it, as `PathBuf::push` builds it:
/// an absolute `file` replaces the folder (on Windows, a rooted `file` without a
/// prefix keeps the folder's drive), and otherwise the parts are joined with one
/// separator unless the folder is empty or already ends with one.
pub open spec fn join_path(folder: Seq<char>, file: Seq<char>, os: TargetOs) -> Seq<char> {
    if os == TargetOs::Windows {
        if file.len() >= 2 && is_sep(file[0], os) && is_sep(file[1], os) {
            file
        } else if has_drive(file) {
            file
        } else if file.len() >= 1 && is_sep(file[0], os) {
            if has_drive(folder) {
                folder.subrange(0, 2) + file
            } else {
                file
            }
        } else if folder.len() == 0 {
            file
        } else if is_sep(folder.last(), os) || (folder.len() == 2 && has_drive(folder)) {
            folder + file
        } else {
            folder + seq!['\\'] + file
        }
    } else {
        if file.len() >= 1 && file[0] == '/' {
            file
        } else if folder.len() == 0 {
            file
        } else if folder.last() == '/' {
            folder + file
        } else {
            folder + seq!['/'] + file
        }
    }
}

/// The shared-library file name of plugin `name` on `os`.
pub fn resolve_plugin_filename(name: &str, os: TargetOs) -> (r: String)
    ensures
        r@ == plugin_filename(name@, os),
{
    match os {
        TargetOs::Windows => concat2(name, ".dll"),
        TargetOs::MacOs => concat3("lib", name, ".dylib"),
        TargetOs::Other => concat3("lib", name, ".so"),
    }
}

fn is_sep_char(c: char, os: TargetOs) -> (r: bool)
    ensures
        r == is_sep(c, os),
{
    c == '/' || (os == TargetOs::Windows && c == '\\')
}

fn starts_with_drive(v: &Vec<char>) -> (r: bool)
    ensures
        r == has_drive(v@),
{
    v.len() >= 2 && v[1] == ':' && (('a' <= v[0] && v[0] <= 'z') || ('A' <= v[0] && v[0] <= 'Z'))
}

/// `file` pushed onto `folder`, as text.
pub fn join_path_str(folder: &str, file: &str, os: TargetOs) -> (r: String)
    ensures
        r@ == join_path(folder@, file@, os),
{
    let fv = chars_of(folder);
    let pv = chars_of(file);
    proof {
        reveal_strlit("\\");
        reveal_strlit("/");
        assert("\\"@ =~= seq!['\\']);
        assert("/"@ =~= seq!['/']);
    }
    if os == TargetOs::Windows {
        if pv.len() >= 2 && is_sep_char(pv[0], os) && is_sep_char(pv[1], os) {
            owned(file)
        } else if starts_with_drive(&pv) {
            owned(file)
        } else if pv.len() >= 1 && is_sep_char(pv[0], os) {
            if starts_with_drive(&fv) {
                let mut r = string_of(fv.as_slice(), 0, 2);
                crate::text::push_str(&mut r, file);
                r
            } else {
                owned(file)
            }
        } else if fv.len() == 0 {
            owned(file)
        } else if is_sep_char(fv[fv.len() - 1], os) || (fv.len() == 2 && starts_with_drive(&fv)) {
            concat2(folder, file)
        } else {
            concat3(folder, "\\", file)
        }
    } else {
        if pv.len() >= 1 && pv[0] == '/' {
            owned(file)
        } else if fv.len() == 0 {
            owned(file)
        } else if fv[fv.len() - 1] == '/' {
            concat2(folder, file)
        } else {
            concat3(folder, "/", file)
        }
    }
}

/// The path of plugin `name`'s library inside `folder`.
pub fn resolve_plugin_binary_path(folder: &str, name: &str, os: TargetOs) -> (r: String)
    ensures
        r@ == join_path(folder@, plugin_filename(name@, os), os),
{
    let filename = resolve_plugin_filename(name, os);
    join_path_str(folder, filename.as_str(), os)
}

/// The last `/`-separated part of `url` (all of it when it holds no `/`), which
/// names the downloaded file.
pub open spec fn url_filename(url: Seq<char>) -> Seq<char>
    decreases url.len(),
{
    if url.len() == 0 {
        url
    } else if url.last() == '/' {
        Seq::empty()
    } else {
        url_filename(url.drop_last()).push(url.last())
    }
}

/// The file name a download from `url` is stored under.
pub fn download_filename(url: &str) -> (r: String)
    ensures
        r@ == url_filename(url@),
{
    let v = chars_of(url);
    let n = v.len();
    let mut start: usize = n;
    while start > 0 && v[start - 1] != '/'
        invariant
            n == v@.len(),
            v@ == url@,
            start <= n,
            forall|j: int| start <= j < n ==> v@[j] != '/',
        decreases start,
    {
        start -= 1;
    }
    proof {
        lemma_url_filename(url@, start as int);
    }
    string_of(v.as_slice(), start, n)
}

proof fn lemma_url_filename(u: Seq<char>, start: int)
    requires
        0 <= start <= u.len(),
        forall|j: int| start <= j < u.len() ==> u[j] != '/',
        start == 0 || u[start - 1] == '/',
    ensures
        url_filename(u) == u.subrange(start, u.len() as int),
    decreases u.len(),
{
    if u.len() == 0 {
    } else if start == u.len() {
        assert(u.last() == '/');
    } else {
        lemma_url_filename(u.drop_last(), start);
        assert(u.drop_last().subrange(start, u.len() - 1).push(u.last()) =~= u.subrange(start, u.len() as int));
    }
}

/// A downloaded plugin stays in the folder it is downloaded to: the file name
/// taken from a URL never holds a `/`, and it is a suffix of the URL.
pub proof fn law_download_name_is_last_segment(url: Seq<char>)
    ensures
        forall|i: int| 0 <= i < url_filename(url).len() ==> #[trigger] url_filename(url)[i] != '/',
        url_filename(url).len() <= url.len(),
        url_filename(url) == url.subrange(url.len() - url_filename(url).len(), url.len() as int),
    decreases url.len(),
{
    if url.len() > 0 && url.last() != '/' {
        law_download_name_is_last_segment(url.drop_last());
        let prev = url_filename(url.drop_last());
        assert(url_filename(url) == prev.push(url.last()));
        assert forall|i: int| 0 <= i < url_filename(url).len() implies #[trigger] url_filename(url)[i] != '/' by {
            if i < prev.len() {
                assert(url_filename(url)[i] == prev[i]);
            }
        }
        assert(url.drop_last().subrange(url.len() - 1 - prev.len(), url.len() - 1).push(url.last())
            =~= url.subrange(url.len() - url_filename(url).len(), url.len() as int));
    } else if url.len() > 0 {
        assert(url.subrange(url.len() as int, url.len() as int) =~= Seq::<char>::empty());
    }
}

} // verus!
