use vstd::prelude::*;

verus! {

/// The operating-system family the shell was built for.
#[derive(Clone, Copy, Debug, PartialEq, Eq, Structural)]
pub enum OsFamily {
    Linux,
    DragonFly,
    FreeBsd,
    NetBsd,
    OpenBsd,
    Windows,
    MacOs,
    Other,
}

/// The families whose windows are drawn by the GTK toolkit, on which the
/// native titlebar is removed.
pub open spec fn allow_listed(os: OsFamily) -> bool {
    match os {
        OsFamily::Linux | OsFamily::DragonFly | OsFamily::FreeBsd | OsFamily::NetBsd
        | OsFamily::OpenBsd => true,
        _ => false,
    }
}

impl OsFamily {
    /// Whether the titlebar customisation applies on this family.
    pub fn customizes_titlebar(self) -> (r: bool)
        ensures
            r == allow_listed(self),
    {
        match self {
            OsFamily::Linux | OsFamily::DragonFly | OsFamily::FreeBsd | OsFamily::NetBsd
            | OsFamily::OpenBsd => true,
            _ => false,
        }
    }
}

} // verus!
