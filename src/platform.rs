use vstd::prelude::*;

use crate::ast::Expression;
use crate::token::is_word;

verus! {

/// The predefined name for the arch called `s`, if it is one the
/// assembler knows.
pub open spec fn arch_macro(s: Seq<char>) -> Option<Seq<char>> {
    if s == "x86"@ {
        Some("__X86__"@)
    } else if s == "x86_64"@ {
        Some("__X86_64__"@)
    } else if s == "arm"@ {
        Some("__ARM__"@)
    } else if s == "aarch64"@ {
        Some("__AARCH64__"@)
    } else if s == "m68k"@ {
        Some("__M68K__"@)
    } else if s == "mips"@ {
        Some("__MIPS__"@)
    } else if s == "mips32r6"@ {
        Some("__MIPS32R6__"@)
    } else if s == "mips64"@ {
        Some("__MIPS64__"@)
    } else if s == "mips64r6"@ {
        Some("__MIPS64R6__"@)
    } else if s == "csky"@ {
        Some("__CSKY__"@)
    } else if s == "powerpc"@ {
        Some("__POWERPC__"@)
    } else if s == "powerpc64"@ {
        Some("__POWERPC64__"@)
    } else if s == "riscv32"@ {
        Some("__RISCV32__"@)
    } else if s == "riscv64"@ {
        Some("__RISCV64__"@)
    } else if s == "s390x"@ {
        Some("__S390X__"@)
    } else if s == "sparc"@ {
        Some("__SPARC__"@)
    } else if s == "sparc64"@ {
        Some("__SPARC64__"@)
    } else if s == "hexagon"@ {
        Some("__HEXAGON__"@)
    } else if s == "loongarch64"@ {
        Some("__LOONGARCH64__"@)
    } else {
        None
    }
}

fn arch_macro_name(s: &String) -> (r: Option<String>)
    ensures
        r matches Some(m) ==> arch_macro(s@) == Some(m@),
        r is None ==> arch_macro(s@) is None,
{
    if is_word(s, "x86") {
        return Some("__X86__".to_owned());
    }
    if is_word(s, "x86_64") {
        return Some("__X86_64__".to_owned());
    }
    if is_word(s, "arm") {
        return Some("__ARM__".to_owned());
    }
    if is_word(s, "aarch64") {
        return Some("__AARCH64__".to_owned());
    }
    if is_word(s, "m68k") {
        return Some("__M68K__".to_owned());
    }
    if is_word(s, "mips") {
        return Some("__MIPS__".to_owned());
    }
    if is_word(s, "mips32r6") {
        return Some("__MIPS32R6__".to_owned());
    }
    if is_word(s, "mips64") {
        return Some("__MIPS64__".to_owned());
    }
    if is_word(s, "mips64r6") {
        return Some("__MIPS64R6__".to_owned());
    }
    if is_word(s, "csky") {
        return Some("__CSKY__".to_owned());
    }
    if is_word(s, "powerpc") {
        return Some("__POWERPC__".to_owned());
    }
    if is_word(s, "powerpc64") {
        return Some("__POWERPC64__".to_owned());
    }
    if is_word(s, "riscv32") {
        return Some("__RISCV32__".to_owned());
    }
    if is_word(s, "riscv64") {
        return Some("__RISCV64__".to_owned());
    }
    if is_word(s, "s390x") {
        return Some("__S390X__".to_owned());
    }
    if is_word(s, "sparc") {
        return Some("__SPARC__".to_owned());
    }
    if is_word(s, "sparc64") {
        return Some("__SPARC64__".to_owned());
    }
    if is_word(s, "hexagon") {
        return Some("__HEXAGON__".to_owned());
    }
    if is_word(s, "loongarch64") {
        return Some("__LOONGARCH64__".to_owned());
    }
    None
}

/// The predefined name for the os called `s`, if it is one the
/// assembler knows.
pub open spec fn os_macro(s: Seq<char>) -> Option<Seq<char>> {
    if s == "linux"@ {
        Some("__LINUX__"@)
    } else if s == "windows"@ {
        Some("__WINDOWS__"@)
    } else if s == "macos"@ {
        Some("__MACOS__"@)
    } else if s == "android"@ {
        Some("__ANDROID__"@)
    } else if s == "ios"@ {
        Some("__IOS__"@)
    } else if s == "openbsd"@ {
        Some("__OPENBSD__"@)
    } else if s == "freebsd"@ {
        Some("__FREEBSD__"@)
    } else if s == "netbsd"@ {
        Some("__NETBSD__"@)
    } else if s == "wasi"@ {
        Some("__WASI__"@)
    } else if s == "hermit"@ {
        Some("__HERMIT__"@)
    } else if s == "aix"@ {
        Some("__AIX__"@)
    } else if s == "apple"@ {
        Some("__APPLE__"@)
    } else if s == "dragonfly"@ {
        Some("__DRAGONFLY__"@)
    } else if s == "emscripten"@ {
        Some("__EMSCRIPTEN__"@)
    } else if s == "espidf"@ {
        Some("__ESPIDF__"@)
    } else if s == "fortanix"@ {
        Some("__FORTANIX__"@)
    } else if s == "uefi"@ {
        Some("__UEFI__"@)
    } else if s == "fuchsia"@ {
        Some("__FUCHSIA__"@)
    } else if s == "haiku"@ {
        Some("__HAIKU__"@)
    } else if s == "watchos"@ {
        Some("__WATCHOS__"@)
    } else if s == "visionos"@ {
        Some("__VISIONOS__"@)
    } else if s == "tvos"@ {
        Some("__TVOS__"@)
    } else if s == "horizon"@ {
        Some("__HORIZON__"@)
    } else if s == "hurd"@ {
        Some("__HURD__"@)
    } else if s == "illumos"@ {
        Some("__ILLUMOS__"@)
    } else if s == "l4re"@ {
        Some("__L4RE__"@)
    } else if s == "nto"@ {
        Some("__NTO__"@)
    } else if s == "redox"@ {
        Some("__REDOX__"@)
    } else if s == "solaris"@ {
        Some("__SOLARIS__"@)
    } else if s == "solid_asp3"@ {
        Some("__SOLID_ASP3__"@)
    } else if s == "vita"@ {
        Some("__VITA__"@)
    } else if s == "vxworks"@ {
        Some("__VXWORKS__"@)
    } else if s == "xous"@ {
        Some("__XOUS__"@)
    } else {
        None
    }
}

fn os_macro_name(s: &String) -> (r: Option<String>)
    ensures
        r matches Some(m) ==> os_macro(s@) == Some(m@),
        r is None ==> os_macro(s@) is None,
{
    if is_word(s, "linux") {
        return Some("__LINUX__".to_owned());
    }
    if is_word(s, "windows") {
        return Some("__WINDOWS__".to_owned());
    }
    if is_word(s, "macos") {
        return Some("__MACOS__".to_owned());
    }
    if is_word(s, "android") {
        return Some("__ANDROID__".to_owned());
    }
    if is_word(s, "ios") {
        return Some("__IOS__".to_owned());
    }
    if is_word(s, "openbsd") {
        return Some("__OPENBSD__".to_owned());
    }
    if is_word(s, "freebsd") {
        return Some("__FREEBSD__".to_owned());
    }
    if is_word(s, "netbsd") {
        return Some("__NETBSD__".to_owned());
    }
    if is_word(s, "wasi") {
        return Some("__WASI__".to_owned());
    }
    if is_word(s, "hermit") {
        return Some("__HERMIT__".to_owned());
    }
    if is_word(s, "aix") {
        return Some("__AIX__".to_owned());
    }
    if is_word(s, "apple") {
        return Some("__APPLE__".to_owned());
    }
    if is_word(s, "dragonfly") {
        return Some("__DRAGONFLY__".to_owned());
    }
    if is_word(s, "emscripten") {
        return Some("__EMSCRIPTEN__".to_owned());
    }
    if is_word(s, "espidf") {
        return Some("__ESPIDF__".to_owned());
    }
    if is_word(s, "fortanix") {
        return Some("__FORTANIX__".to_owned());
    }
    if is_word(s, "uefi") {
        return Some("__UEFI__".to_owned());
    }
    if is_word(s, "fuchsia") {
        return Some("__FUCHSIA__".to_owned());
    }
    if is_word(s, "haiku") {
        return Some("__HAIKU__".to_owned());
    }
    if is_word(s, "watchos") {
        return Some("__WATCHOS__".to_owned());
    }
    if is_word(s, "visionos") {
        return Some("__VISIONOS__".to_owned());
    }
    if is_word(s, "tvos") {
        return Some("__TVOS__".to_owned());
    }
    if is_word(s, "horizon") {
        return Some("__HORIZON__".to_owned());
    }
    if is_word(s, "hurd") {
        return Some("__HURD__".to_owned());
    }
    if is_word(s, "illumos") {
        return Some("__ILLUMOS__".to_owned());
    }
    if is_word(s, "l4re") {
        return Some("__L4RE__".to_owned());
    }
    if is_word(s, "nto") {
        return Some("__NTO__".to_owned());
    }
    if is_word(s, "redox") {
        return Some("__REDOX__".to_owned());
    }
    if is_word(s, "solaris") {
        return Some("__SOLARIS__".to_owned());
    }
    if is_word(s, "solid_asp3") {
        return Some("__SOLID_ASP3__".to_owned());
    }
    if is_word(s, "vita") {
        return Some("__VITA__".to_owned());
    }
    if is_word(s, "vxworks") {
        return Some("__VXWORKS__".to_owned());
    }
    if is_word(s, "xous") {
        return Some("__XOUS__".to_owned());
    }
    None
}

/// The names predefined for a host with architecture `arch` and operating
/// system `os` (as Rust spells them, such as `x86_64` and `linux`): one name
/// for each that the assembler knows, each defined as an empty string.
pub fn default_definitions(arch: &String, os: &String) -> (r: Vec<(String, Expression)>)
    ensures
        r@.len() == (if arch_macro(arch@) is Some { 1nat } else { 0nat }) + (if os_macro(os@) is Some { 1nat } else { 0nat }),
        forall|i: int| 0 <= i < r@.len() ==> ((#[trigger] r@[i]).1 matches Expression::StringLiteral(v) && v@.len() == 0),
        arch_macro(arch@) matches Some(m) ==> r@[0].0@ == m,
        os_macro(os@) matches Some(m) ==> r@[r@.len() - 1].0@ == m,
{
    let mut defs: Vec<(String, Expression)> = Vec::new();
    if let Some(m) = arch_macro_name(arch) {
        defs.push((m, Expression::StringLiteral(String::new())));
    }
    if let Some(m) = os_macro_name(os) {
        defs.push((m, Expression::StringLiteral(String::new())));
    }
    defs
}

} // verus!
