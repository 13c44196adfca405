//! The sysroot packages `builtin` and `std`, and package ids.
use std::path::PathBuf;
use vstd::prelude::*;

use crate::text::{decimal, push_decimal, push_str, str_eq};

verus! {

#[verifier::external_type_specification]
#[verifier::external_body]
pub struct ExPathBuf(PathBuf);

/// Identifies a package; `builtin` is 0, `std` is 1, user packages start at 2.
#[derive(Clone, Copy, Debug, PartialEq, Eq, Structural)]
pub struct PackageId(pub u32);

impl PackageId {
    /// The `builtin` sysroot package.
    pub fn builtin() -> (r: Self)
        ensures
            r.0 == 0,
    {
        PackageId(0)
    }

    /// The `std` sysroot package.
    pub fn std_package() -> (r: Self)
        ensures
            r.0 == 1,
    {
        PackageId(1)
    }

    /// The first id available for user packages.
    pub fn user_start() -> (r: Self)
        ensures
            r.0 == 2,
    {
        PackageId(2)
    }

    pub fn new(raw: u32) -> (r: Self)
        ensures
            r.0 == raw,
    {
        PackageId(raw)
    }

    pub fn raw(self) -> (r: u32)
        ensures
            r == self.0,
    {
        self.0
    }

    pub fn index(self) -> (r: usize)
        ensures
            r == self.0,
    {
        self.0 as usize
    }

    /// Whether this is `builtin` or `std`.
    pub fn is_sysroot(self) -> (r: bool)
        ensures
            r == (self.0 == 0 || self.0 == 1),
    {
        self.0 == 0 || self.0 == 1
    }

    /// How the id is printed: the package name for the sysroot packages,
    /// `pkg#` and the number otherwise.
    pub fn to_display_string(self) -> (r: String)
        ensures
            r@ == if self.0 == 0 {
                "builtin"@
            } else if self.0 == 1 {
                "std"@
            } else {
                "pkg#"@ + decimal(self.0 as nat)
            },
    {
        if self.0 == 0 {
            String::from_str("builtin")
        } else if self.0 == 1 {
            String::from_str("std")
        } else {
            let mut out = String::from_str("pkg#");
            push_decimal(&mut out, self.0 as u64);
            out
        }
    }
}

/// Metadata of one sysroot package.
pub struct SysrootPackage {
    pub package_id: PackageId,
    pub name: String,
    pub source_root: PathBuf,
    pub deps: Vec<PackageId>,
}

/// The resolved sysroot.
pub struct Sysroot {
    pub root: PathBuf,
    pub builtin: SysrootPackage,
    pub std: SysrootPackage,
}

impl Sysroot {
    /// The sysroot laid out under `root`, with the package sources at
    /// `builtin_root` and `std_root`: `builtin` depends on nothing, `std`
    /// on `builtin`.
    pub fn from_roots(root: PathBuf, builtin_root: PathBuf, std_root: PathBuf) -> (s: Sysroot)
        ensures
            s.root == root,
            s.builtin.package_id.0 == 0,
            s.builtin.name@ == "builtin"@,
            s.builtin.source_root == builtin_root,
            s.builtin.deps@.len() == 0,
            s.std.package_id.0 == 1,
            s.std.name@ == "std"@,
            s.std.source_root == std_root,
            s.std.deps@ == seq![PackageId(0)],
    {
        let mut std_deps = Vec::new();
        std_deps.push(PackageId::builtin());
        Sysroot {
            root,
            builtin: SysrootPackage {
                package_id: PackageId::builtin(),
                name: String::from_str("builtin"),
                source_root: builtin_root,
                deps: Vec::new(),
            },
            std: SysrootPackage {
                package_id: PackageId::std_package(),
                name: String::from_str("std"),
                source_root: std_root,
                deps: std_deps,
            },
        }
    }

    /// The packages in dependency order, `builtin` first.
    pub fn packages(&self) -> (r: Vec<&SysrootPackage>)
        ensures
            r@.len() == 2,
            *r@[0] == self.builtin,
            *r@[1] == self.std,
    {
        let mut v = Vec::new();
        v.push(&self.builtin);
        v.push(&self.std);
        v
    }

    /// The sysroot package with the given id.
    pub fn package(&self, id: PackageId) -> (r: Option<&SysrootPackage>)
        ensures
            r == if id.0 == 0 {
                Some(&self.builtin)
            } else if id.0 == 1 {
                Some(&self.std)
            } else {
                None::<&SysrootPackage>
            },
    {
        if id.0 == 0 {
            Some(&self.builtin)
        } else if id.0 == 1 {
            Some(&self.std)
        } else {
            None
        }
    }

    /// The sysroot package with the given name.
    pub fn package_by_name(&self, name: &str) -> (r: Option<&SysrootPackage>)
        ensures
            r == if name@ == "builtin"@ {
                Some(&self.builtin)
            } else if name@ == "std"@ {
                Some(&self.std)
            } else {
                None::<&SysrootPackage>
            },
    {
        if str_eq(name, "builtin") {
            Some(&self.builtin)
        } else if str_eq(name, "std") {
            Some(&self.std)
        } else {
            None
        }
    }
}

/// What probing a candidate library directory found.
#[derive(Clone, Copy, Debug, PartialEq, Eq, Structural)]
pub struct LibraryProbe {
    /// The candidate exists and is a directory.
    pub is_dir: bool,
    /// It holds a `builtin` and a `std` directory.
    pub has_packages: bool,
}

/// Where a sysroot was found.
#[derive(Clone, Copy, Debug, PartialEq, Eq, Structural)]
pub enum SysrootSource {
    /// The directory named by the `FLURRY_SYSROOT` variable.
    Env,
    /// `../library` next to the running executable.
    ExeRelative,
    /// `library` under the workspace root.
    Workspace,
}

/// A candidate that can serve as the sysroot.
pub open spec fn usable(p: Option<LibraryProbe>) -> bool {
    match p {
        Some(q) => q.is_dir && q.has_packages,
        None => false,
    }
}

/// The sysroot search: the first candidate, in search order, that is a
/// directory holding both packages.  `env` and `exe` are `None` when the
/// variable is unset or the executable's directory is unknown.
pub fn pick_sysroot(env: Option<LibraryProbe>, exe: Option<LibraryProbe>, workspace: LibraryProbe) -> (r:
    Option<SysrootSource>)
    ensures
        r == if usable(env) {
            Some(SysrootSource::Env)
        } else if usable(exe) {
            Some(SysrootSource::ExeRelative)
        } else if usable(Some(workspace)) {
            Some(SysrootSource::Workspace)
        } else {
            None
        },
{
    if let Some(p) = env {
        if p.is_dir && p.has_packages {
            return Some(SysrootSource::Env);
        }
    }
    if let Some(p) = exe {
        if p.is_dir && p.has_packages {
            return Some(SysrootSource::ExeRelative);
        }
    }
    if workspace.is_dir && workspace.has_packages {
        return Some(SysrootSource::Workspace);
    }
    None
}

/// Compiler configuration.
pub struct CompilerConfig {
    pub name: String,
    pub root: PathBuf,
    /// Directory names skipped when scanning for sources.
    pub ignores: Vec<String>,
    /// An explicit sysroot directory, if any.
    pub sysroot_override: Option<PathBuf>,
}

impl CompilerConfig {
    /// A configuration that skips the usual tool and editor directories and
    /// discovers the sysroot itself.
    pub fn new(name: String, root: PathBuf) -> (c: CompilerConfig)
        ensures
            c.name == name,
            c.root == root,
            c.ignores@.len() == 5,
            c.ignores@[0]@ == ".git"@,
            c.ignores@[1]@ == "target"@,
            c.ignores@[2]@ == ".cache"@,
            c.ignores@[3]@ == ".vscode"@,
            c.ignores@[4]@ == ".idea"@,
            c.sysroot_override is None,
    {
        let mut ignores = Vec::new();
        ignores.push(String::from_str(".git"));
        ignores.push(String::from_str("target"));
        ignores.push(String::from_str(".cache"));
        ignores.push(String::from_str(".vscode"));
        ignores.push(String::from_str(".idea"));
        CompilerConfig { name, root, ignores, sysroot_override: None }
    }
}

} // verus!
