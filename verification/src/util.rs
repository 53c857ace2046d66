//! Which plugin runs which content, and where its library lies.

use vstd::prelude::*;
use vstd::string::StringExecFns;
use crate::text::{ascii_lower, chars_of, push_text, same_chars, string_of, to_ascii_lower};

verus! {

/// `s` with every ASCII upper-case letter made lower case.
pub open spec fn lowered(s: Seq<char>) -> Seq<char> {
    Seq::new(s.len(), |i: int| ascii_lower(s[i]))
}

/// The plugin that runs content whose file name ends in `extension`, where
/// one is known. The case of the extension does not matter.
pub open spec fn core_name_for(extension: Seq<char>) -> Option<Seq<char>> {
    let e = lowered(extension);
    if e == "gb"@ || e == "gbc"@ {
        Some("gambatte"@)
    } else if e == "gba"@ {
        Some("mgba"@)
    } else {
        None
    }
}

/// The plugin that runs content whose file name ends in `extension`, where
/// one is known.
pub fn guess_core_name_from_extension(extension: &str) -> (r: Option<&'static str>)
    ensures
        match r {
            Some(name) => core_name_for(extension@) == Some(name@),
            None => core_name_for(extension@) is None,
        },
{
    let chars = chars_of(extension);
    let mut lower: Vec<char> = Vec::new();
    let mut i: usize = 0;
    while i < chars.len()
        invariant
            i <= chars@.len(),
            chars@ == extension@,
            lower@ == lowered(extension@).take(i as int),
        decreases chars@.len() - i,
    {
        lower.push(to_ascii_lower(chars[i]));
        assert(lower@ =~= lowered(extension@).take(i + 1));
        i += 1;
    }
    assert(lower@ =~= lowered(extension@));
    let gb = chars_of("gb");
    let gbc = chars_of("gbc");
    let gba = chars_of("gba");
    if same_chars(lower.as_slice(), gb.as_slice()) || same_chars(lower.as_slice(), gbc.as_slice()) {
        Some("gambatte")
    } else if same_chars(lower.as_slice(), gba.as_slice()) {
        Some("mgba")
    } else {
        None
    }
}

/// The file name of the library of the plugin `core_name`, on a platform
/// whose dynamic libraries end in `dll_extension`.
pub open spec fn library_name_of(core_name: Seq<char>, dll_extension: Seq<char>) -> Seq<char> {
    core_name + "_libretro."@ + dll_extension
}

/// The file name of the library of the plugin `core_name`.
pub fn core_name_to_library_name(core_name: &str, dll_extension: &str) -> (r: String)
    ensures
        r@ == library_name_of(core_name@, dll_extension@),
{
    String::from_str(core_name).concat("_libretro.").concat(dll_extension)
}

/// The directory that holds the plugin libraries.
pub fn cores_directory() -> (r: String)
    ensures
        r@ == "./cores/"@,
{
    String::from_str("./cores/")
}

/// Where the last segment of `p[..end]` begins: after its last `/`, or at
/// the start where it has none.
pub open spec fn segment_start(p: Seq<char>, end: int) -> int
    decreases end,
{
    if end <= 0 || p[end - 1] == '/' {
        end
    } else {
        segment_start(p, end - 1)
    }
}

/// The bounds of the file name of the path `p[..end]`, written with `/`:
/// its last segment, not counting `/` at the end nor segments `.` after the
/// first. There is none where the path is empty or the root, where it is
/// `.`, and where it ends in `..`.
pub open spec fn file_name_bounds(p: Seq<char>, end: int) -> Option<(int, int)>
    decreases end,
{
    if end <= 0 {
        None
    } else if p[end - 1] == '/' {
        file_name_bounds(p, end - 1)
    } else {
        let start = segment_start(p, end);
        let segment = p.subrange(start, end);
        if segment == seq!['.'] {
            if start == 0 {
                None
            } else {
                file_name_bounds(p, end - 1)
            }
        } else if segment == seq!['.', '.'] {
            None
        } else {
            Some((start, end))
        }
    }
}

/// Where the last `.` of `name[..end]` stands, if it has one.
pub open spec fn last_dot(name: Seq<char>, end: int) -> Option<int>
    decreases end,
{
    if end <= 0 {
        None
    } else if name[end - 1] == '.' {
        Some(end - 1)
    } else {
        last_dot(name, end - 1)
    }
}

/// The extension of a file name: what follows its last `.`, where it has
/// one that is not its first character.
pub open spec fn name_extension(name: Seq<char>) -> Option<Seq<char>> {
    match last_dot(name, name.len() as int) {
        Some(dot) => if dot == 0 {
            None
        } else {
            Some(name.skip(dot + 1))
        },
        None => None,
    }
}

/// The extension of the file that the path `p` names, if it names a file
/// and the file name has one.
pub open spec fn extension_of(p: Seq<char>) -> Option<Seq<char>> {
    match file_name_bounds(p, p.len() as int) {
        Some((start, end)) => name_extension(p.subrange(start, end)),
        None => None,
    }
}

/// The segment that ends at `end` begins at or before `end`, and holds no
/// `/`.
pub proof fn lemma_segment_start(p: Seq<char>, end: int)
    requires
        0 <= end <= p.len(),
    ensures
        0 <= segment_start(p, end) <= end,
        forall|i: int| segment_start(p, end) <= i < end ==> p[i] != '/',
        segment_start(p, end) > 0 ==> p[segment_start(p, end) - 1] == '/',
    decreases end,
{
    if end > 0 && p[end - 1] != '/' {
        lemma_segment_start(p, end - 1);
    }
}

/// A stretch without `/` belongs to the segment that ends where it ends.
pub proof fn lemma_segment_extends(p: Seq<char>, start: int, end: int)
    requires
        0 <= start <= end <= p.len(),
        forall|i: int| start <= i < end ==> p[i] != '/',
    ensures
        segment_start(p, end) == segment_start(p, start),
    decreases end - start,
{
    if start < end {
        lemma_segment_extends(p, start, end - 1);
    }
}

fn file_name_of(p: &[char]) -> (r: Option<(usize, usize)>)
    ensures
        match r {
            Some((start, end)) => start <= end <= p@.len() && file_name_bounds(
                p@,
                p@.len() as int,
            ) == Some((start as int, end as int)),
            None => file_name_bounds(p@, p@.len() as int) is None,
        },
{
    let mut end: usize = p.len();
    while end > 0
        invariant
            end <= p@.len(),
            file_name_bounds(p@, p@.len() as int) == file_name_bounds(p@, end as int),
        decreases end,
    {
        if p[end - 1] == '/' {
            end -= 1;
        } else {
            let mut start: usize = end - 1;
            while start > 0 && p[start - 1] != '/'
                invariant
                    start < end <= p@.len(),
                    forall|i: int| start <= i < end ==> p@[i] != '/',
                decreases start,
            {
                start -= 1;
            }
            proof {
                lemma_segment_extends(p@, start as int, end as int);
                assert(segment_start(p@, end as int) == start);
            }
            let ghost segment = p@.subrange(start as int, end as int);
            let one = end - start == 1 && p[start] == '.';
            let two = end - start == 2 && p[start] == '.' && p[start + 1] == '.';
            proof {
                if one {
                    assert(segment =~= seq!['.']);
                } else {
                    assert(segment != seq!['.']) by {
                        if segment == seq!['.'] {
                            assert(segment.len() == 1);
                            assert(segment[0] == '.');
                        }
                    }
                }
                if two {
                    assert(segment =~= seq!['.', '.']);
                } else {
                    assert(segment != seq!['.', '.']) by {
                        if segment == seq!['.', '.'] {
                            assert(segment.len() == 2);
                            assert(segment[0] == '.');
                            assert(segment[1] == '.');
                        }
                    }
                }
            }
            if one {
                if start == 0 {
                    return None;
                }
                end -= 1;
            } else if two {
                return None;
            } else {
                return Some((start, end));
            }
        }
    }
    None
}

/// The extension of the file that the path `path` names, if it names a file
/// and the file name has one. The path is read as text with `/` between
/// its segments.
pub fn path_extension(path: &str) -> (r: Option<String>)
    ensures
        match r {
            Some(extension) => extension_of(path@) == Some(extension@),
            None => extension_of(path@) is None,
        },
{
    let chars = chars_of(path);
    let (start, end) = match file_name_of(chars.as_slice()) {
        Some(bounds) => bounds,
        None => {
            return None;
        },
    };
    let name = vstd::slice::slice_subrange(chars.as_slice(), start, end);
    let mut at: usize = name.len();
    while at > 0
        invariant
            at <= name@.len(),
            extension_of(path@) == name_extension(name@),
            last_dot(name@, name@.len() as int) == last_dot(name@, at as int),
        decreases at,
    {
        if name[at - 1] == '.' {
            if at - 1 == 0 {
                return None;
            }
            let extension = vstd::slice::slice_subrange(name, at, name.len());
            assert(extension@ =~= name@.skip(at as int));
            return Some(string_of(extension));
        }
        at -= 1;
    }
    None
}

/// The path that `name` has below the directory `dir`, as text with `/`
/// between the two: `name` alone where it starts at the root.
pub open spec fn joined(dir: Seq<char>, name: Seq<char>) -> Seq<char> {
    if name.len() > 0 && name[0] == '/' {
        name
    } else if dir.len() == 0 || dir.last() == '/' {
        dir + name
    } else {
        dir + seq!['/'] + name
    }
}

/// The path that `name` has below the directory `dir`.
pub fn join(dir: &str, name: &str) -> (r: String)
    ensures
        r@ == joined(dir@, name@),
{
    let dir_chars = chars_of(dir);
    let name_chars = chars_of(name);
    let mut out: Vec<char> = Vec::new();
    if name_chars.len() > 0 && name_chars[0] == '/' {
        push_text(&mut out, name);
    } else {
        push_text(&mut out, dir);
        if dir_chars.len() > 0 && dir_chars[dir_chars.len() - 1] != '/' {
            out.push('/');
        }
        push_text(&mut out, name);
    }
    assert(out@ =~= joined(dir@, name@));
    string_of(out.as_slice())
}

/// Why no plugin can be named for a content file.
#[derive(Debug)]
pub enum CoreError {
    /// The file name has no extension.
    NoExtension,
    /// No plugin is known for this extension.
    UnknownExtension(String),
}

/// A plugin by name, with the file name of its library and the directory it
/// is kept in.
#[derive(Debug)]
pub struct CoreManager {
    pub core_name: String,
    pub library_name: String,
    pub library_dir: String,
    pub library_path: String,
}

/// The mathematical content of a [`CoreManager`].
pub ghost struct CoreManagerView {
    pub core_name: Seq<char>,
    pub library_name: Seq<char>,
    pub library_dir: Seq<char>,
    pub library_path: Seq<char>,
}

impl View for CoreManager {
    type V = CoreManagerView;

    open spec fn view(&self) -> CoreManagerView {
        CoreManagerView {
            core_name: self.core_name@,
            library_name: self.library_name@,
            library_dir: self.library_dir@,
            library_path: self.library_path@,
        }
    }
}

/// The manager of the plugin `core_name`: the library is named after the
/// plugin and lies in the directory of the plugin libraries.
pub open spec fn manager_of(core_name: Seq<char>, dll_extension: Seq<char>) -> CoreManagerView {
    CoreManagerView {
        core_name,
        library_name: library_name_of(core_name, dll_extension),
        library_dir: "./cores/"@,
        library_path: joined("./cores/"@, library_name_of(core_name, dll_extension)),
    }
}

/// The manager of the plugin that runs the content file `rom`, or the
/// reason why there is none.
pub open spec fn manager_for(rom: Seq<char>, dll_extension: Seq<char>) -> Result<
    CoreManagerView,
    CoreErrorView,
> {
    match extension_of(rom) {
        None => Err(CoreErrorView::NoExtension),
        Some(extension) => match core_name_for(extension) {
            Some(name) => Ok(manager_of(name, dll_extension)),
            None => Err(CoreErrorView::UnknownExtension(extension)),
        },
    }
}

/// The mathematical content of a [`CoreError`].
pub ghost enum CoreErrorView {
    NoExtension,
    UnknownExtension(Seq<char>),
}

impl View for CoreError {
    type V = CoreErrorView;

    open spec fn view(&self) -> CoreErrorView {
        match *self {
            CoreError::NoExtension => CoreErrorView::NoExtension,
            CoreError::UnknownExtension(extension) => CoreErrorView::UnknownExtension(extension@),
        }
    }
}

impl CoreManager {
    /// The manager of the plugin `core_name`.
    pub fn new(core_name: String, dll_extension: &str) -> (r: CoreManager)
        ensures
            r@ == manager_of(core_name@, dll_extension@),
    {
        let library_name = core_name_to_library_name(core_name.as_str(), dll_extension);
        let library_dir = cores_directory();
        let library_path = join(library_dir.as_str(), library_name.as_str());
        CoreManager { core_name, library_name, library_dir, library_path }
    }

    /// The manager of the plugin that runs the content file `rom`: the
    /// plugin is chosen by the extension of the file name. Nothing on disk
    /// is looked at.
    pub fn from_rom(rom: &str, dll_extension: &str) -> (r: Result<CoreManager, CoreError>)
        ensures
            match r {
                Ok(manager) => manager_for(rom@, dll_extension@) == Ok::<
                    CoreManagerView,
                    CoreErrorView,
                >(manager@),
                Err(error) => manager_for(rom@, dll_extension@) == Err::<
                    CoreManagerView,
                    CoreErrorView,
                >(error@),
            },
    {
        let extension = match path_extension(rom) {
            Some(extension) => extension,
            None => {
                return Err(CoreError::NoExtension);
            },
        };
        match guess_core_name_from_extension(extension.as_str()) {
            Some(core_name) => Ok(CoreManager::new(String::from_str(core_name), dll_extension)),
            None => Err(CoreError::UnknownExtension(extension)),
        }
    }
}

} // verus!
