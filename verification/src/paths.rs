//! Deterministic resolution of the backend's interpreter and entry script.
//!
//! Paths are modelled as strings of components joined by the platform's
//! separator character. Starting from the shell's current directory the
//! resolver ascends two levels to the working root, then derives the backend
//! directory, the entry script inside it, and the per-platform
//! virtual-environment interpreter under the root. Nothing here touches the
//! file system; whether the interpreter actually exists is checked by the
//! embedding application and fed to the supervisor.

use vstd::prelude::*;
use vstd::string::StrSliceExecFns;

verus! {

/// Which executable layout the virtual environment uses.
#[derive(Clone, Copy, PartialEq, Eq, Structural, Debug)]
pub enum Platform {
    Posix,
    Windows,
}

/// The three locations the supervisor needs: computed fresh every startup,
/// never persisted.
#[derive(Debug)]
pub struct ResolvedPaths {
    pub interpreter: String,
    pub entry_script: String,
    pub working_dir: String,
}

/// The working root could not be derived from the current directory.
#[derive(Clone, Copy, PartialEq, Eq, Structural, Debug)]
pub enum PathError {
    /// The current directory has no parent directory.
    MissingParent,
    /// The current directory's parent has no parent itself.
    MissingGrandparent,
}

/// The separator that joins path components on the given platform.
pub open spec fn sep_char(platform: Platform) -> char {
    match platform {
        Platform::Posix => '/',
        Platform::Windows => '\\',
    }
}

/// Parent of a path: everything before the last separator, or nothing when
/// the path contains no separator at all.
pub open spec fn spec_parent(p: Seq<char>, c: char) -> Option<Seq<char>>
    decreases p.len(),
{
    if p.len() == 0 {
        None
    } else if p.last() == c {
        Some(p.drop_last())
    } else {
        spec_parent(p.drop_last(), c)
    }
}

/// Parent of the parent: the working root two levels above.
pub open spec fn spec_grandparent(p: Seq<char>, c: char) -> Option<Seq<char>> {
    match spec_parent(p, c) {
        Some(q) => spec_parent(q, c),
        None => None,
    }
}

/// The backend's own directory, a sibling "backend" entry under the root.
pub open spec fn spec_backend_dir(root: Seq<char>, platform: Platform) -> Seq<char> {
    root + seq![sep_char(platform)] + "backend"@
}

/// The backend entry script inside the backend directory.
pub open spec fn spec_entry_script(root: Seq<char>, platform: Platform) -> Seq<char> {
    spec_backend_dir(root, platform) + seq![sep_char(platform)] + "main.py"@
}

/// The virtual-environment interpreter under the root, in the per-platform
/// layout.
pub open spec fn spec_interpreter(root: Seq<char>, platform: Platform) -> Seq<char> {
    match platform {
        Platform::Posix => root + "/.venv/bin/python"@,
        Platform::Windows => root + "\\.venv\\Scripts\\python.exe"@,
    }
}

/// The separator as an executable character.
fn sep_char_exec(platform: Platform) -> (c: char)
    ensures
        c == sep_char(platform),
{
    match platform {
        Platform::Posix => '/',
        Platform::Windows => '\\',
    }
}

/// The separator as a one-character string slice.
fn sep_str(platform: Platform) -> (s: &'static str)
    ensures
        s@ == seq![sep_char(platform)],
{
    proof {
        reveal_strlit("/");
        reveal_strlit("\\");
    }
    match platform {
        Platform::Posix => {
            let s = "/";
            proof {
                assert(s@ =~= seq![sep_char(platform)]);
            }
            s
        },
        Platform::Windows => {
            let s = "\\";
            proof {
                assert(s@ =~= seq![sep_char(platform)]);
            }
            s
        },
    }
}

/// Strip the last component from a path: the part before the last separator,
/// or nothing when the path contains no separator.
pub fn parent_dir<'a>(path: &'a str, platform: Platform) -> (r: Option<&'a str>)
    ensures
        r matches Some(s) ==> spec_parent(path@, sep_char(platform)) == Some(s@),
        r is None ==> spec_parent(path@, sep_char(platform)) is None,
{
    let len = path.unicode_len();
    let c = sep_char_exec(platform);
    proof {
        assert(path@.subrange(0, len as int) =~= path@);
    }
    let mut i = len;
    while i > 0
        invariant
            i <= len,
            len == path@.len(),
            c == sep_char(platform),
            spec_parent(path@, c) == spec_parent(path@.subrange(0, i as int), c),
        decreases i,
    {
        let ch = path.get_char(i - 1);
        proof {
            let q = path@.subrange(0, i as int);
            assert(q.len() == i as int);
            assert(q.last() == path@[i as int - 1]);
            assert(q.drop_last() =~= path@.subrange(0, i as int - 1));
        }
        if ch == c {
            let prefix = path.substring_char(0, i - 1);
            proof {
                assert(spec_parent(path@, c) == Some(prefix@));
            }
            return Some(prefix);
        }
        i = i - 1;
    }
    proof {
        assert(path@.subrange(0, 0) =~= Seq::<char>::empty());
    }
    None
}

/// Neither separator occurs in the entry script's file name.
proof fn lemma_entry_name_has_no_sep(c: char)
    requires
        c == '/' || c == '\\',
    ensures
        forall|i: int| 0 <= i < "main.py"@.len() ==> "main.py"@[i] != c,
{
    reveal_strlit("main.py");
    assert forall|i: int| 0 <= i < "main.py"@.len() implies "main.py"@[i] != c by {
        assert("main.py"@[0] == 'm');
        assert("main.py"@[1] == 'a');
        assert("main.py"@[2] == 'i');
        assert("main.py"@[3] == 'n');
        assert("main.py"@[4] == '.');
        assert("main.py"@[5] == 'p');
        assert("main.py"@[6] == 'y');
    }
}

/// Joining a directory and a separator-free name with the separator makes a
/// path whose parent is that directory again.
proof fn lemma_parent_of_join(a: Seq<char>, c: char, b: Seq<char>)
    requires
        forall|i: int| 0 <= i < b.len() ==> b[i] != c,
    ensures
        spec_parent(a + seq![c] + b, c) == Some(a),
    decreases b.len(),
{
    let p = a + seq![c] + b;
    assert(p.len() == a.len() + 1 + b.len());
    if b.len() == 0 {
        assert(p =~= a.push(c));
        assert(p.last() == c);
        assert(p.drop_last() =~= a);
    } else {
        assert(b[b.len() - 1] != c);
        assert(p.last() == b[b.len() - 1]);
        assert(p.drop_last() =~= a + seq![c] + b.drop_last());
        assert forall|i: int| 0 <= i < b.drop_last().len() implies b.drop_last()[i] != c by {
            assert(b.drop_last()[i] == b[i]);
        }
        lemma_parent_of_join(a, c, b.drop_last());
    }
}

/// Derive all three locations from a known working root. The entry script's
/// parent is exactly the working directory handed out, which is why the
/// spawned backend can load its resources relative to itself.
pub fn resolve_paths(root: &str, platform: Platform) -> (r: ResolvedPaths)
    ensures
        r.working_dir@ == spec_backend_dir(root@, platform),
        r.entry_script@ == spec_entry_script(root@, platform),
        r.interpreter@ == spec_interpreter(root@, platform),
        spec_parent(r.entry_script@, sep_char(platform)) == Some(r.working_dir@),
{
    let sep = sep_str(platform);
    let mut working_dir = root.to_owned();
    working_dir.append(sep);
    working_dir.append("backend");
    let mut entry_script = working_dir.clone();
    entry_script.append(sep);
    entry_script.append("main.py");
    let mut interpreter = root.to_owned();
    match platform {
        Platform::Posix => interpreter.append("/.venv/bin/python"),
        Platform::Windows => interpreter.append("\\.venv\\Scripts\\python.exe"),
    }
    proof {
        assert(sep_char(platform) == '/' || sep_char(platform) == '\\');
        lemma_entry_name_has_no_sep(sep_char(platform));
        assert(working_dir@ =~= spec_backend_dir(root@, platform));
        assert(entry_script@ =~= spec_backend_dir(root@, platform) + seq![sep_char(platform)]
            + "main.py"@);
        lemma_parent_of_join(
            spec_backend_dir(root@, platform),
            sep_char(platform),
            "main.py"@,
        );
        assert(interpreter@ =~= spec_interpreter(root@, platform));
    }
    ResolvedPaths { interpreter, entry_script, working_dir }
}

/// Resolve everything from the shell's current directory: ascend two levels
/// to the working root, then derive the three locations. Fails with a
/// descriptive error when an ancestor is missing, exactly when the
/// corresponding parent cannot be computed.
pub fn resolve_from_current_dir(current_dir: &str, platform: Platform) -> (r: Result<
    ResolvedPaths,
    PathError,
>)
    ensures
        spec_parent(current_dir@, sep_char(platform)) is None ==> r == Err::<
            ResolvedPaths,
            PathError,
        >(PathError::MissingParent),
        spec_parent(current_dir@, sep_char(platform)) is Some && spec_grandparent(
            current_dir@,
            sep_char(platform),
        ) is None ==> r == Err::<ResolvedPaths, PathError>(PathError::MissingGrandparent),
        spec_grandparent(current_dir@, sep_char(platform)) matches Some(root) ==> (r matches Ok(rp)
            && {
            &&& rp.working_dir@ == spec_backend_dir(root, platform)
            &&& rp.entry_script@ == spec_entry_script(root, platform)
            &&& rp.interpreter@ == spec_interpreter(root, platform)
            &&& spec_parent(rp.entry_script@, sep_char(platform)) == Some(rp.working_dir@)
        }),
{
    let p1 = match parent_dir(current_dir, platform) {
        Some(p) => p,
        None => {
            return Err(PathError::MissingParent);
        },
    };
    let root = match parent_dir(p1, platform) {
        Some(p) => p,
        None => {
            return Err(PathError::MissingGrandparent);
        },
    };
    Ok(resolve_paths(root, platform))
}

} // verus!
