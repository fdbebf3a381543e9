use vstd::prelude::*;

use crate::models::ListKey;
use crate::text::{owned, same_text};

verus! {

/// A language runtime that functions run on; `Other` holds an identifier this library does not
/// know.
#[derive(Debug, Clone)]
pub enum ExecutionRuntime {
    Php80,
    Php81,
    Node146,
    Node160,
    Node180,
    Ruby30,
    Ruby31,
    Python38,
    Python39,
    Python310,
    Deno121,
    Deno124,
    Dart215,
    Dart216,
    Dart217,
    Dotnet31,
    Dotnet60,
    Java80,
    Java110,
    Java170,
    Java180,
    Swift55,
    Kotlin16,
    Cpp170,
    Other(String),
}

/// The identifier of a known runtime.
pub open spec fn runtime_name(r: ExecutionRuntime) -> Seq<char> {
    match r {
        ExecutionRuntime::Php80 => "php-8.0"@,
        ExecutionRuntime::Php81 => "php-8.1"@,
        ExecutionRuntime::Node146 => "node-14.6"@,
        ExecutionRuntime::Node160 => "node-16.0"@,
        ExecutionRuntime::Node180 => "node-18.0"@,
        ExecutionRuntime::Ruby30 => "ruby-3.0"@,
        ExecutionRuntime::Ruby31 => "ruby-3.1"@,
        ExecutionRuntime::Python38 => "python-3.8"@,
        ExecutionRuntime::Python39 => "python-3.9"@,
        ExecutionRuntime::Python310 => "python-3.10"@,
        ExecutionRuntime::Deno121 => "deno-1.21"@,
        ExecutionRuntime::Deno124 => "deno-1.24"@,
        ExecutionRuntime::Dart215 => "dart-2.15"@,
        ExecutionRuntime::Dart216 => "dart-2.16"@,
        ExecutionRuntime::Dart217 => "dart-2.17"@,
        ExecutionRuntime::Dotnet31 => "dotnet-3.1"@,
        ExecutionRuntime::Dotnet60 => "dotnet-6.0"@,
        ExecutionRuntime::Java80 => "java-8.0"@,
        ExecutionRuntime::Java110 => "java-11.0"@,
        ExecutionRuntime::Java170 => "java-17.0"@,
        ExecutionRuntime::Java180 => "java-18.0"@,
        ExecutionRuntime::Swift55 => "swift-5.5"@,
        ExecutionRuntime::Kotlin16 => "kotlin-1.6"@,
        ExecutionRuntime::Cpp170 => "cpp-17.0"@,
        ExecutionRuntime::Other(s) => s@,
    }
}

/// The known runtimes, in declaration order, with their identifiers.
pub open spec fn known_runtime(s: Seq<char>) -> Option<ExecutionRuntime> {
    if s == "php-8.0"@ {
        Some(ExecutionRuntime::Php80)
    }     else if s == "php-8.1"@ {
        Some(ExecutionRuntime::Php81)
    }     else if s == "node-14.6"@ {
        Some(ExecutionRuntime::Node146)
    }     else if s == "node-16.0"@ {
        Some(ExecutionRuntime::Node160)
    }     else if s == "node-18.0"@ {
        Some(ExecutionRuntime::Node180)
    }     else if s == "ruby-3.0"@ {
        Some(ExecutionRuntime::Ruby30)
    }     else if s == "ruby-3.1"@ {
        Some(ExecutionRuntime::Ruby31)
    }     else if s == "python-3.8"@ {
        Some(ExecutionRuntime::Python38)
    }     else if s == "python-3.9"@ {
        Some(ExecutionRuntime::Python39)
    }     else if s == "python-3.10"@ {
        Some(ExecutionRuntime::Python310)
    }     else if s == "deno-1.21"@ {
        Some(ExecutionRuntime::Deno121)
    }     else if s == "deno-1.24"@ {
        Some(ExecutionRuntime::Deno124)
    }     else if s == "dart-2.15"@ {
        Some(ExecutionRuntime::Dart215)
    }     else if s == "dart-2.16"@ {
        Some(ExecutionRuntime::Dart216)
    }     else if s == "dart-2.17"@ {
        Some(ExecutionRuntime::Dart217)
    }     else if s == "dotnet-3.1"@ {
        Some(ExecutionRuntime::Dotnet31)
    }     else if s == "dotnet-6.0"@ {
        Some(ExecutionRuntime::Dotnet60)
    }     else if s == "java-8.0"@ {
        Some(ExecutionRuntime::Java80)
    }     else if s == "java-11.0"@ {
        Some(ExecutionRuntime::Java110)
    }     else if s == "java-17.0"@ {
        Some(ExecutionRuntime::Java170)
    }     else if s == "java-18.0"@ {
        Some(ExecutionRuntime::Java180)
    }     else if s == "swift-5.5"@ {
        Some(ExecutionRuntime::Swift55)
    }     else if s == "kotlin-1.6"@ {
        Some(ExecutionRuntime::Kotlin16)
    }     else if s == "cpp-17.0"@ {
        Some(ExecutionRuntime::Cpp170)
    } else {
        None
    }
}

impl Default for ExecutionRuntime {
    fn default() -> (r: ExecutionRuntime)
        ensures
            r is Node160,
    {
        ExecutionRuntime::Node160
    }
}

impl ExecutionRuntime {
    /// The runtime's identifier.
    pub fn to_string(&self) -> (r: String)
        ensures
            r@ == runtime_name(*self),
    {
        match self {
            ExecutionRuntime::Php80 => owned("php-8.0"),
            ExecutionRuntime::Php81 => owned("php-8.1"),
            ExecutionRuntime::Node146 => owned("node-14.6"),
            ExecutionRuntime::Node160 => owned("node-16.0"),
            ExecutionRuntime::Node180 => owned("node-18.0"),
            ExecutionRuntime::Ruby30 => owned("ruby-3.0"),
            ExecutionRuntime::Ruby31 => owned("ruby-3.1"),
            ExecutionRuntime::Python38 => owned("python-3.8"),
            ExecutionRuntime::Python39 => owned("python-3.9"),
            ExecutionRuntime::Python310 => owned("python-3.10"),
            ExecutionRuntime::Deno121 => owned("deno-1.21"),
            ExecutionRuntime::Deno124 => owned("deno-1.24"),
            ExecutionRuntime::Dart215 => owned("dart-2.15"),
            ExecutionRuntime::Dart216 => owned("dart-2.16"),
            ExecutionRuntime::Dart217 => owned("dart-2.17"),
            ExecutionRuntime::Dotnet31 => owned("dotnet-3.1"),
            ExecutionRuntime::Dotnet60 => owned("dotnet-6.0"),
            ExecutionRuntime::Java80 => owned("java-8.0"),
            ExecutionRuntime::Java110 => owned("java-11.0"),
            ExecutionRuntime::Java170 => owned("java-17.0"),
            ExecutionRuntime::Java180 => owned("java-18.0"),
            ExecutionRuntime::Swift55 => owned("swift-5.5"),
            ExecutionRuntime::Kotlin16 => owned("kotlin-1.6"),
            ExecutionRuntime::Cpp170 => owned("cpp-17.0"),
            ExecutionRuntime::Other(s) => s.clone(),
        }
    }

    /// The runtime that `s` identifies; an unknown identifier gives `Other` holding it.
    pub fn parse(s: &str) -> (r: ExecutionRuntime)
        ensures
            match known_runtime(s@) {
                Some(k) => r == k,
                None => r matches ExecutionRuntime::Other(t) && t@ == s@,
            },
    {
        if same_text(s, "php-8.0") {
            ExecutionRuntime::Php80
        } else if same_text(s, "php-8.1") {
            ExecutionRuntime::Php81
        } else if same_text(s, "node-14.6") {
            ExecutionRuntime::Node146
        } else if same_text(s, "node-16.0") {
            ExecutionRuntime::Node160
        } else if same_text(s, "node-18.0") {
            ExecutionRuntime::Node180
        } else if same_text(s, "ruby-3.0") {
            ExecutionRuntime::Ruby30
        } else if same_text(s, "ruby-3.1") {
            ExecutionRuntime::Ruby31
        } else if same_text(s, "python-3.8") {
            ExecutionRuntime::Python38
        } else if same_text(s, "python-3.9") {
            ExecutionRuntime::Python39
        } else if same_text(s, "python-3.10") {
            ExecutionRuntime::Python310
        } else if same_text(s, "deno-1.21") {
            ExecutionRuntime::Deno121
        } else if same_text(s, "deno-1.24") {
            ExecutionRuntime::Deno124
        } else if same_text(s, "dart-2.15") {
            ExecutionRuntime::Dart215
        } else if same_text(s, "dart-2.16") {
            ExecutionRuntime::Dart216
        } else if same_text(s, "dart-2.17") {
            ExecutionRuntime::Dart217
        } else if same_text(s, "dotnet-3.1") {
            ExecutionRuntime::Dotnet31
        } else if same_text(s, "dotnet-6.0") {
            ExecutionRuntime::Dotnet60
        } else if same_text(s, "java-8.0") {
            ExecutionRuntime::Java80
        } else if same_text(s, "java-11.0") {
            ExecutionRuntime::Java110
        } else if same_text(s, "java-17.0") {
            ExecutionRuntime::Java170
        } else if same_text(s, "java-18.0") {
            ExecutionRuntime::Java180
        } else if same_text(s, "swift-5.5") {
            ExecutionRuntime::Swift55
        } else if same_text(s, "kotlin-1.6") {
            ExecutionRuntime::Kotlin16
        } else if same_text(s, "cpp-17.0") {
            ExecutionRuntime::Cpp170
        } else {
            ExecutionRuntime::Other(owned(s))
        }
    }
}

impl ListKey for ExecutionRuntime {
    open spec fn spec_list_key() -> Seq<char> {
        "runtimes"@
    }

    fn list_key() -> (r: &'static str) {
        "runtimes"
    }
}

/// A runtime that the service offers.
#[derive(Debug, Clone)]
pub struct Runtime {
    pub id: ExecutionRuntime,
    pub name: String,
    pub version: String,
    pub base: String,
    pub image: String,
    pub logo: String,
    pub supports: Vec<String>,
}

impl ListKey for Runtime {
    open spec fn spec_list_key() -> Seq<char> {
        "runtimes"@
    }

    fn list_key() -> (r: &'static str) {
        "runtimes"
    }
}

} // verus!
