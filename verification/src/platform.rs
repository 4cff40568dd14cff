//! The platforms a host build can run on and the host modules the loader
//! works with.

use vstd::prelude::*;
use vstd::string::*;

verus! {

/// Operating system of the host process.
#[derive(Clone, Copy, Debug, PartialEq, Eq, Structural)]
pub enum Os {
    /// Windows.
    Windows,
    /// Linux.
    Linux,
    /// macOS.
    MacOs,
}

/// Pointer width of the host process.
#[derive(Clone, Copy, Debug, PartialEq, Eq, Structural)]
pub enum PointerWidth {
    /// A 32-bit process.
    Bits32,
    /// A 64-bit process.
    Bits64,
}

/// What selects a signature variant and a module location.
#[derive(Clone, Copy, Debug, PartialEq, Eq, Structural)]
pub struct Platform {
    pub os: Os,
    pub width: PointerWidth,
}

/// A module of the host that the loader looks into.
#[derive(Clone, Copy, Debug, PartialEq, Eq, Structural)]
pub enum HostModule {
    /// The host's core logic module.
    Client,
    /// The scripting runtime module.
    LuaShared,
    /// The scripting runtime module as a dedicated server names it.
    LuaSharedSrv,
}

/// The directory, relative to the host's working directory, in which the
/// host keeps its modules. A 32-bit host keeps them in one of two places;
/// `newer_layout` says whether the module was found in the place that newer
/// builds use.
pub open spec fn module_directory(platform: Platform, newer_layout: bool) -> Seq<char> {
    match (platform.os, platform.width) {
        (Os::MacOs, _) => "GarrysMod_Signed.app/Contents/MacOS/"@,
        (Os::Windows, PointerWidth::Bits64) => "bin/win64/"@,
        (Os::Linux, PointerWidth::Bits64) => "bin/linux64/"@,
        (Os::Windows, PointerWidth::Bits32) => if newer_layout {
            "bin/"@
        } else {
            "garrysmod/bin/"@
        },
        (Os::Linux, PointerWidth::Bits32) => if newer_layout {
            "bin/linux32/"@
        } else {
            "garrysmod/bin/"@
        },
    }
}

/// The file name of `module` without its extension. The server's variant of
/// the scripting runtime bears a name of its own only in the older layout of
/// 32-bit Linux hosts.
pub open spec fn module_stem(module: HostModule, platform: Platform, newer_layout: bool) -> Seq<
    char,
> {
    match module {
        HostModule::Client => "client"@,
        HostModule::LuaShared => "lua_shared"@,
        HostModule::LuaSharedSrv => if platform.os is Linux && platform.width is Bits32
            && !newer_layout {
            "lua_shared_srv"@
        } else {
            "lua_shared"@
        },
    }
}

/// The extension that shared libraries bear on `os`.
pub open spec fn module_extension(os: Os) -> Seq<char> {
    match os {
        Os::Windows => ".dll"@,
        Os::Linux => ".so"@,
        Os::MacOs => ".dylib"@,
    }
}

/// Where the host keeps `module`: directory, name and extension.
pub open spec fn module_location(module: HostModule, platform: Platform, newer_layout: bool) -> Seq<
    char,
> {
    module_directory(platform, newer_layout) + module_stem(module, platform, newer_layout)
        + module_extension(platform.os)
}

impl HostModule {
    /// The path, relative to the host's working directory, at which the host
    /// keeps this module. For a 32-bit host the caller looks first whether
    /// the path for the newer layout exists, and asks again for the older
    /// one where it does not; for the others `newer_layout` makes no
    /// difference.
    pub fn dll_path(self, platform: Platform, newer_layout: bool) -> (path: String)
        ensures
            path@ == module_location(self, platform, newer_layout),
    {
        let directory = match platform.os {
            Os::MacOs => "GarrysMod_Signed.app/Contents/MacOS/",
            Os::Windows => match platform.width {
                PointerWidth::Bits64 => "bin/win64/",
                PointerWidth::Bits32 => if newer_layout {
                    "bin/"
                } else {
                    "garrysmod/bin/"
                },
            },
            Os::Linux => match platform.width {
                PointerWidth::Bits64 => "bin/linux64/",
                PointerWidth::Bits32 => if newer_layout {
                    "bin/linux32/"
                } else {
                    "garrysmod/bin/"
                },
            },
        };
        let older_linux = match (platform.os, platform.width) {
            (Os::Linux, PointerWidth::Bits32) => !newer_layout,
            _ => false,
        };
        let stem = match self {
            HostModule::Client => "client",
            HostModule::LuaShared => "lua_shared",
            HostModule::LuaSharedSrv => if older_linux {
                "lua_shared_srv"
            } else {
                "lua_shared"
            },
        };
        let extension = match platform.os {
            Os::Windows => ".dll",
            Os::Linux => ".so",
            Os::MacOs => ".dylib",
        };
        String::from_str(directory).concat(stem).concat(extension)
    }
}

} // verus!
