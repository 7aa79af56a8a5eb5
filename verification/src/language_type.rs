//! The closed registry of known languages: one variant per language,
//! the bidirectional mapping between variants and display names, and the
//! proofs that the mapping is total and injective.

use vstd::prelude::*;

use crate::errors::UnknownLanguageName;
use crate::text::str_eq;

verus! {

/// One variant for each language syntax the registry knows.
///
/// The set is closed: name lookup is total over the display names below
/// and fails on every other string.
#[derive(Clone, Copy, Debug, PartialEq, Eq, Structural, Hash, PartialOrd, Ord)]
pub enum LanguageType {
    Abap,
    ABNF,
    ActionScript,
    Ada,
    Alex,
    Agda,
    Alloy,
    Arduino,
    AsciiDoc,
    Asn1,
    Assembly,
    AssemblyGAS,
    Asp,
    AspNet,
    Autoconf,
    AutoHotKey,
    Automake,
    Sh,
    Bash,
    BrightScript,
    Elvish,
    Fish,
    Batch,
    Bean,
    C,
    Cabal,
    Cassius,
    Ceylon,
    CHeader,
    Clojure,
    ClojureScript,
    ClojureC,
    CMake,
    Cobol,
    CodeQL,
    CoffeeScript,
    Cogent,
    ColdFusion,
    ColdFusionScript,
    Coq,
    Cpp,
    CppHeader,
    Crystal,
    CSharp,
    CShell,
    Css,
    D,
    Daml,
    Dart,
    DeviceTree,
    Dhall,
    DreamMaker,
    Dockerfile,
    DotNetResource,
    Dust,
    Edn,
    Elisp,
    Elixir,
    Elm,
    EmacsDevEnv,
    Emojicode,
    Erlang,
    FEN,
    FlatBuffers,
    Fstar,
    Forth,
    FortranLegacy,
    FortranModern,
    FreeMarker,
    FSharp,
    Futhark,
    GDB,
    GdScript,
    Gherkin,
    Gleam,
    Glsl,
    Go,
    Gohtml,
    Graphql,
    Groovy,
    Gwion,
    Happy,
    Handlebars,
    Haskell,
    Hcl,
    Headache,
    Hlsl,
    HolyC,
    Html,
    Hamlet,
    Haxe,
    Hex,
    Idris,
    Ini,
    IntelHex,
    Isabelle,
    Jai,
    Java,
    JavaScript,
    Json,
    Jsonnet,
    Jsx,
    Julia,
    Julius,
    Jupyter,
    K,
    KakouneScript,
    Kotlin,
    Lean,
    Less,
    Liquid,
    LinkerScript,
    Lisp,
    LiveScript,
    LLVM,
    Logtalk,
    Lua,
    Lucius,
    Madlang,
    Makefile,
    Markdown,
    ModuleDef,
    MoonScript,
    Meson,
    Mint,
    Mustache,
    Nim,
    Nix,
    ObjectiveC,
    ObjectiveCpp,
    OCaml,
    Odin,
    OpenType,
    Org,
    Oz,
    Pan,
    Pascal,
    Perl,
    Perl6,
    Pest,
    NotQuitePerl,
    Php,
    Polly,
    Pony,
    PostCss,
    Processing,
    Prolog,
    PowerShell,
    PSL,
    Protobuf,
    Pug,
    PureScript,
    Python,
    Qcl,
    Q,
    Qml,
    R,
    Racket,
    Rakefile,
    Razor,
    Renpy,
    RON,
    RPMSpecfile,
    Ruby,
    RubyHtml,
    Rust,
    ReStructuredText,
    Sass,
    Scala,
    Scheme,
    Scons,
    Sml,
    Solidity,
    SpecmanE,
    Spice,
    Sql,
    SRecode,
    Stan,
    Stratego,
    Stylus,
    Svelte,
    Svg,
    Swift,
    Swig,
    SystemVerilog,
    Tcl,
    Tera,
    Tex,
    Text,
    Thrift,
    Toml,
    Tsx,
    Ttcn,
    Twig,
    TypeScript,
    UnrealPlugin,
    UnrealProject,
    UnrealScript,
    UnrealShader,
    UnrealShaderHeader,
    UnrealDeveloperMarkdown,
    UrWeb,
    UrWebProject,
    Vala,
    VB6,
    VBScript,
    Velocity,
    Verilog,
    VerilogArgsFile,
    Vhdl,
    VisualBasic,
    VisualStudioSolution,
    VisualStudioProject,
    VimScript,
    Vue,
    WebAssembly,
    Wolfram,
    Xaml,
    XcodeConfig,
    Xml,
    XSL,
    MsBuild,
    Xtend,
    Yaml,
    Zig,
    Zsh,
}

/// The display name of a language, as a sequence of characters.
pub open spec fn name_spec(t: LanguageType) -> Seq<char> {
    match t {
        LanguageType::Abap => "ABAP"@,
        LanguageType::ABNF => "ABNF"@,
        LanguageType::ActionScript => "ActionScript"@,
        LanguageType::Ada => "Ada"@,
        LanguageType::Alex => "Alex"@,
        LanguageType::Agda => "Agda"@,
        LanguageType::Alloy => "Alloy"@,
        LanguageType::Arduino => "Arduino C++"@,
        LanguageType::AsciiDoc => "AsciiDoc"@,
        LanguageType::Asn1 => "ASN.1"@,
        LanguageType::Assembly => "Assembly"@,
        LanguageType::AssemblyGAS => "GNU Style Assembly"@,
        LanguageType::Asp => "ASP"@,
        LanguageType::AspNet => "ASP.NET"@,
        LanguageType::Autoconf => "Autoconf"@,
        LanguageType::AutoHotKey => "AutoHotKey"@,
        LanguageType::Automake => "Automake"@,
        LanguageType::Sh => "Shell"@,
        LanguageType::Bash => "BASH"@,
        LanguageType::BrightScript => "BrightScript"@,
        LanguageType::Elvish => "Elvish"@,
        LanguageType::Fish => "Fish"@,
        LanguageType::Batch => "Batch"@,
        LanguageType::Bean => "Bean"@,
        LanguageType::C => "C"@,
        LanguageType::Cabal => "Cabal"@,
        LanguageType::Cassius => "Cassius"@,
        LanguageType::Ceylon => "Ceylon"@,
        LanguageType::CHeader => "C Header"@,
        LanguageType::Clojure => "Clojure"@,
        LanguageType::ClojureScript => "ClojureScript"@,
        LanguageType::ClojureC => "ClojureC"@,
        LanguageType::CMake => "CMake"@,
        LanguageType::Cobol => "COBOL"@,
        LanguageType::CodeQL => "CodeQL"@,
        LanguageType::CoffeeScript => "CoffeeScript"@,
        LanguageType::Cogent => "Cogent"@,
        LanguageType::ColdFusion => "ColdFusion"@,
        LanguageType::ColdFusionScript => "ColdFusion CFScript"@,
        LanguageType::Coq => "Coq"@,
        LanguageType::Cpp => "C++"@,
        LanguageType::CppHeader => "C++ Header"@,
        LanguageType::Crystal => "Crystal"@,
        LanguageType::CSharp => "C#"@,
        LanguageType::CShell => "C Shell"@,
        LanguageType::Css => "CSS"@,
        LanguageType::D => "D"@,
        LanguageType::Daml => "DAML"@,
        LanguageType::Dart => "Dart"@,
        LanguageType::DeviceTree => "Device Tree"@,
        LanguageType::Dhall => "Dhall"@,
        LanguageType::DreamMaker => "Dream Maker"@,
        LanguageType::Dockerfile => "Dockerfile"@,
        LanguageType::DotNetResource => ".NET Resource"@,
        LanguageType::Dust => "Dust.js"@,
        LanguageType::Edn => "Edn"@,
        LanguageType::Elisp => "Emacs Lisp"@,
        LanguageType::Elixir => "Elixir"@,
        LanguageType::Elm => "Elm"@,
        LanguageType::EmacsDevEnv => "Emacs Dev Env"@,
        LanguageType::Emojicode => "Emojicode"@,
        LanguageType::Erlang => "Erlang"@,
        LanguageType::FEN => "FEN"@,
        LanguageType::FlatBuffers => "FlatBuffers Schema"@,
        LanguageType::Fstar => "F*"@,
        LanguageType::Forth => "Forth"@,
        LanguageType::FortranLegacy => "FORTRAN Legacy"@,
        LanguageType::FortranModern => "FORTRAN Modern"@,
        LanguageType::FreeMarker => "FreeMarker"@,
        LanguageType::FSharp => "F#"@,
        LanguageType::Futhark => "Futhark"@,
        LanguageType::GDB => "GDB Script"@,
        LanguageType::GdScript => "GDScript"@,
        LanguageType::Gherkin => "Gherkin (Cucumber)"@,
        LanguageType::Gleam => "Gleam"@,
        LanguageType::Glsl => "GLSL"@,
        LanguageType::Go => "Go"@,
        LanguageType::Gohtml => "Go HTML"@,
        LanguageType::Graphql => "GraphQL"@,
        LanguageType::Groovy => "Groovy"@,
        LanguageType::Gwion => "Gwion"@,
        LanguageType::Happy => "Happy"@,
        LanguageType::Handlebars => "Handlebars"@,
        LanguageType::Haskell => "Haskell"@,
        LanguageType::Hcl => "HCL"@,
        LanguageType::Headache => "Headache"@,
        LanguageType::Hlsl => "HLSL"@,
        LanguageType::HolyC => "HolyC"@,
        LanguageType::Html => "HTML"@,
        LanguageType::Hamlet => "Hamlet"@,
        LanguageType::Haxe => "Haxe"@,
        LanguageType::Hex => "HEX"@,
        LanguageType::Idris => "Idris"@,
        LanguageType::Ini => "INI"@,
        LanguageType::IntelHex => "Intel HEX"@,
        LanguageType::Isabelle => "Isabelle"@,
        LanguageType::Jai => "JAI"@,
        LanguageType::Java => "Java"@,
        LanguageType::JavaScript => "JavaScript"@,
        LanguageType::Json => "JSON"@,
        LanguageType::Jsonnet => "Jsonnet"@,
        LanguageType::Jsx => "JSX"@,
        LanguageType::Julia => "Julia"@,
        LanguageType::Julius => "Julius"@,
        LanguageType::Jupyter => "Jupyter Notebooks"@,
        LanguageType::K => "K"@,
        LanguageType::KakouneScript => "Kakoune script"@,
        LanguageType::Kotlin => "Kotlin"@,
        LanguageType::Lean => "Lean"@,
        LanguageType::Less => "LESS"@,
        LanguageType::Liquid => "Liquid"@,
        LanguageType::LinkerScript => "LD Script"@,
        LanguageType::Lisp => "Lisp"@,
        LanguageType::LiveScript => "LiveScript"@,
        LanguageType::LLVM => "LLVM"@,
        LanguageType::Logtalk => "Logtalk"@,
        LanguageType::Lua => "Lua"@,
        LanguageType::Lucius => "Lucius"@,
        LanguageType::Madlang => "Madlang"@,
        LanguageType::Makefile => "Makefile"@,
        LanguageType::Markdown => "Markdown"@,
        LanguageType::ModuleDef => "Module-Definition"@,
        LanguageType::MoonScript => "MoonScript"@,
        LanguageType::Meson => "Meson"@,
        LanguageType::Mint => "Mint"@,
        LanguageType::Mustache => "Mustache"@,
        LanguageType::Nim => "Nim"@,
        LanguageType::Nix => "Nix"@,
        LanguageType::ObjectiveC => "Objective-C"@,
        LanguageType::ObjectiveCpp => "Objective-C++"@,
        LanguageType::OCaml => "OCaml"@,
        LanguageType::Odin => "Odin"@,
        LanguageType::OpenType => "OpenType Feature File"@,
        LanguageType::Org => "Org"@,
        LanguageType::Oz => "Oz"@,
        LanguageType::Pan => "Pan"@,
        LanguageType::Pascal => "Pascal"@,
        LanguageType::Perl => "Perl"@,
        LanguageType::Perl6 => "Rakudo"@,
        LanguageType::Pest => "Pest"@,
        LanguageType::NotQuitePerl => "Not Quite Perl"@,
        LanguageType::Php => "PHP"@,
        LanguageType::Polly => "Polly"@,
        LanguageType::Pony => "Pony"@,
        LanguageType::PostCss => "PostCSS"@,
        LanguageType::Processing => "Processing"@,
        LanguageType::Prolog => "Prolog"@,
        LanguageType::PowerShell => "PowerShell"@,
        LanguageType::PSL => "PSL Assertion"@,
        LanguageType::Protobuf => "Protocol Buffers"@,
        LanguageType::Pug => "Pug"@,
        LanguageType::PureScript => "PureScript"@,
        LanguageType::Python => "Python"@,
        LanguageType::Qcl => "QCL"@,
        LanguageType::Q => "Q"@,
        LanguageType::Qml => "QML"@,
        LanguageType::R => "R"@,
        LanguageType::Racket => "Racket"@,
        LanguageType::Rakefile => "Rakefile"@,
        LanguageType::Razor => "Razor"@,
        LanguageType::Renpy => "Ren'Py"@,
        LanguageType::RON => "Rusty Object Notation"@,
        LanguageType::RPMSpecfile => "RPM Specfile"@,
        LanguageType::Ruby => "Ruby"@,
        LanguageType::RubyHtml => "Ruby HTML"@,
        LanguageType::Rust => "Rust"@,
        LanguageType::ReStructuredText => "ReStructuredText"@,
        LanguageType::Sass => "Sass"@,
        LanguageType::Scala => "Scala"@,
        LanguageType::Scheme => "Scheme"@,
        LanguageType::Scons => "Scons"@,
        LanguageType::Sml => "Standard ML (SML)"@,
        LanguageType::Solidity => "Solidity"@,
        LanguageType::SpecmanE => "Specman e"@,
        LanguageType::Spice => "Spice Netlist"@,
        LanguageType::Sql => "SQL"@,
        LanguageType::SRecode => "SRecode Template"@,
        LanguageType::Stan => "Stan"@,
        LanguageType::Stratego => "Stratego/XT"@,
        LanguageType::Stylus => "Stylus"@,
        LanguageType::Svelte => "Svelte"@,
        LanguageType::Svg => "SVG"@,
        LanguageType::Swift => "Swift"@,
        LanguageType::Swig => "SWIG"@,
        LanguageType::SystemVerilog => "SystemVerilog"@,
        LanguageType::Tcl => "TCL"@,
        LanguageType::Tera => "Tera"@,
        LanguageType::Tex => "TeX"@,
        LanguageType::Text => "Plain Text"@,
        LanguageType::Thrift => "Thrift"@,
        LanguageType::Toml => "TOML"@,
        LanguageType::Tsx => "TSX"@,
        LanguageType::Ttcn => "TTCN-3"@,
        LanguageType::Twig => "Twig"@,
        LanguageType::TypeScript => "TypeScript"@,
        LanguageType::UnrealPlugin => "Unreal Plugin"@,
        LanguageType::UnrealProject => "Unreal Project"@,
        LanguageType::UnrealScript => "Unreal Script"@,
        LanguageType::UnrealShader => "Unreal Shader"@,
        LanguageType::UnrealShaderHeader => "Unreal Shader Header"@,
        LanguageType::UnrealDeveloperMarkdown => "Unreal Markdown"@,
        LanguageType::UrWeb => "Ur/Web"@,
        LanguageType::UrWebProject => "Ur/Web Project"@,
        LanguageType::Vala => "Vala"@,
        LanguageType::VB6 => "VB6"@,
        LanguageType::VBScript => "VBScript"@,
        LanguageType::Velocity => "Apache Velocity"@,
        LanguageType::Verilog => "Verilog"@,
        LanguageType::VerilogArgsFile => "Verilog Args File"@,
        LanguageType::Vhdl => "VHDL"@,
        LanguageType::VisualBasic => "Visual Basic"@,
        LanguageType::VisualStudioSolution => "Visual Studio Solution"@,
        LanguageType::VisualStudioProject => "Visual Studio Project"@,
        LanguageType::VimScript => "Vim script"@,
        LanguageType::Vue => "Vue"@,
        LanguageType::WebAssembly => "WebAssembly"@,
        LanguageType::Wolfram => "Wolfram"@,
        LanguageType::Xaml => "XAML"@,
        LanguageType::XcodeConfig => "Xcode Config"@,
        LanguageType::Xml => "XML"@,
        LanguageType::XSL => "XSL"@,
        LanguageType::MsBuild => "MSBuild"@,
        LanguageType::Xtend => "Xtend"@,
        LanguageType::Yaml => "YAML"@,
        LanguageType::Zig => "Zig"@,
        LanguageType::Zsh => "Zsh"@,
    }
}

/// A compact key derived from a name: its length together with the
/// first, second and last character codes.  Over the closed set of
/// display names this key happens to be distinct for every language,
/// which gives a cheap route to injectivity of `name_spec`.
pub open spec fn name_key(s: Seq<char>) -> int {
    let c1 = if s.len() > 1 {
        s[1] as int
    } else {
        0
    };
    ((s.len() * 128 + s[0] as int) * 128 + c1) * 128 + s.last() as int
}

/// The value of `name_key` on each language's display name.
pub open spec fn name_key_of(t: LanguageType) -> int {
    match t {
        LanguageType::Abap => 9462096int,
        LanguageType::ABNF => 9462086int,
        LanguageType::ActionScript => 26243572int,
        LanguageType::Ada => 7369313int,
        LanguageType::Alex => 9467512int,
        LanguageType::Agda => 9466849int,
        LanguageType::Alloy => 11564665int,
        LanguageType::Arduino => 24148267int,
        LanguageType::AsciiDoc => 17856995int,
        LanguageType::Asn1 => 11561393int,
        LanguageType::Assembly => 17857017int,
        LanguageType::AssemblyGAS => 38922105int,
        LanguageType::Asp => 7367120int,
        LanguageType::AspNet => 15755732int,
        LanguageType::Autoconf => 17857254int,
        LanguageType::AutoHotKey => 22051577int,
        LanguageType::Automake => 17857253int,
        LanguageType::Sh => 11859052int,
        LanguageType::Bash => 9478344int,
        LanguageType::BrightScript => 26261876int,
        LanguageType::Elvish => 13727336int,
        LanguageType::Fish => 9549032int,
        LanguageType::Batch => 11579624int,
        LanguageType::Bean => 9482990int,
        LanguageType::C => 3194947int,
        LanguageType::Cabal => 11596012int,
        LanguageType::Cassius => 15790323int,
        LanguageType::Ceylon => 13693678int,
        LanguageType::CHeader => 17879154int,
        LanguageType::Clojure => 15791717int,
        LanguageType::ClojureScript => 28374644int,
        LanguageType::ClojureC => 17888835int,
        LanguageType::CMake => 11593445int,
        LanguageType::Cobol => 11593676int,
        LanguageType::CodeQL => 13694924int,
        LanguageType::CoffeeScript => 26277876int,
        LanguageType::Cogent => 13694964int,
        LanguageType::ColdFusion => 22083566int,
        LanguageType::ColdFusionScript => 40957940int,
        LanguageType::Coq => 7403505int,
        LanguageType::Cpp => 7394731int,
        LanguageType::CppHeader => 22074866int,
        LanguageType::Crystal => 15792492int,
        LanguageType::CSharp => 5296547int,
        LanguageType::CShell => 15781996int,
        LanguageType::Css => 7399891int,
        LanguageType::D => 3211332int,
        LanguageType::Daml => 9511116int,
        LanguageType::Dart => 9515252int,
        LanguageType::DeviceTree => 24195813int,
        LanguageType::Dhall => 11613292int,
        LanguageType::DreamMaker => 24197490int,
        LanguageType::Dockerfile => 22099941int,
        LanguageType::DotNetResource => 28026725int,
        LanguageType::Dust => 15809267int,
        LanguageType::Edn => 7434862int,
        LanguageType::Elisp => 22116080int,
        LanguageType::Elixir => 13727346int,
        LanguageType::Elm => 7435885int,
        LanguageType::EmacsDevEnv => 28407542int,
        LanguageType::Emojicode => 20018917int,
        LanguageType::Erlang => 13728103int,
        LanguageType::FEN => 7447246int,
        LanguageType::FlatBuffers => 38909537int,
        LanguageType::Fstar => 5346602int,
        LanguageType::Forth => 11646952int,
        LanguageType::FortranLegacy => 30517241int,
        LanguageType::FortranModern => 30517230int,
        LanguageType::FreeMarker => 22133106int,
        LanguageType::FSharp => 5345699int,
        LanguageType::Futhark => 15842027int,
        LanguageType::GDB => 22143604int,
        LanguageType::GdScript => 17949300int,
        LanguageType::Gherkin => 38925353int,
        LanguageType::Gleam => 11662957int,
        LanguageType::Glsl => 9561676int,
        LanguageType::Go => 5371887int,
        LanguageType::Gohtml => 15857612int,
        LanguageType::Graphql => 15857996int,
        LanguageType::Groovy => 13760889int,
        LanguageType::Gwion => 11664366int,
        LanguageType::Happy => 11677945int,
        LanguageType::Handlebars => 22163699int,
        LanguageType::Haskell => 15872236int,
        LanguageType::Hcl => 7479756int,
        LanguageType::Headache => 17969893int,
        LanguageType::Hlsl => 9578060int,
        LanguageType::HolyC => 11679683int,
        LanguageType::Html => 9579084int,
        LanguageType::Hamlet => 13775092int,
        LanguageType::Haxe => 9580773int,
        LanguageType::Hex => 7480024int,
        LanguageType::Idris => 11694707int,
        LanguageType::Ini => 7497545int,
        LanguageType::IntelHex => 20084568int,
        LanguageType::Isabelle => 17988069int,
        LanguageType::Jai => 7512265int,
        LanguageType::Java => 9613537int,
        LanguageType::JavaScript => 22196468int,
        LanguageType::Json => 9611726int,
        LanguageType::Jsonnet => 15907316int,
        LanguageType::Jsx => 7514584int,
        LanguageType::Julia => 11713249int,
        LanguageType::Julius => 13810419int,
        LanguageType::Jupyter => 36879091int,
        LanguageType::K => 3326027int,
        LanguageType::KakouneScript => 30601460int,
        LanguageType::Kotlin => 13826030int,
        LanguageType::Lean => 9646830int,
        LanguageType::Less => 9642707int,
        LanguageType::Liquid => 13841636int,
        LanguageType::LinkerScript => 20128372int,
        LanguageType::Lisp => 9647344int,
        LanguageType::LiveScript => 22230260int,
        LanguageType::LLVM => 9643597int,
        LanguageType::Logtalk => 15939563int,
        LanguageType::Lua => 7551713int,
        LanguageType::Lucius => 13843187int,
        LanguageType::Madlang => 15954151int,
        LanguageType::Makefile => 18051301int,
        LanguageType::Markdown => 18051310int,
        LanguageType::ModuleDef => 36927470int,
        LanguageType::MoonScript => 22247412int,
        LanguageType::Meson => 11760366int,
        LanguageType::Mint => 9663732int,
        LanguageType::Mustache => 18053861int,
        LanguageType::Nim => 7582957int,
        LanguageType::Nix => 7582968int,
        LanguageType::ObjectiveC => 24375619int,
        LanguageType::ObjectiveCpp => 28569899int,
        LanguageType::OCaml => 11788780int,
        LanguageType::Odin => 9695854int,
        LanguageType::OpenType => 45348965int,
        LanguageType::Org => 7600487int,
        LanguageType::Oz => 5504378int,
        LanguageType::Pan => 7614702int,
        LanguageType::Pascal => 13906156int,
        LanguageType::Perl => 9712364int,
        LanguageType::Perl6 => 13938927int,
        LanguageType::Pest => 9712372int,
        LanguageType::NotQuitePerl => 30652396int,
        LanguageType::Php => 7611472int,
        LanguageType::Polly => 11810809int,
        LanguageType::Pony => 9713657int,
        LanguageType::PostCss => 16005075int,
        LanguageType::Processing => 22296935int,
        LanguageType::Prolog => 13908327int,
        LanguageType::PowerShell => 22296556int,
        LanguageType::PSL => 28584430int,
        LanguageType::Protobuf => 34879859int,
        LanguageType::Pug => 7617255int,
        LanguageType::PureScript => 22297332int,
        LanguageType::Python => 13909230int,
        LanguageType::Qcl => 7627212int,
        LanguageType::Q => 3424337int,
        LanguageType::Qml => 7628492int,
        LanguageType::R => 3440722int,
        LanguageType::Racket => 13938932int,
        LanguageType::Rakefile => 18133221int,
        LanguageType::Razor => 11841778int,
        LanguageType::Renpy => 13939449int,
        LanguageType::RON => 45398766int,
        LanguageType::RPMSpecfile => 26519653int,
        LanguageType::Ruby => 9747193int,
        LanguageType::RubyHtml => 20232908int,
        LanguageType::Rust => 9747188int,
        LanguageType::ReStructuredText => 34910964int,
        LanguageType::Sass => 9761011int,
        LanguageType::Scala => 11858401int,
        LanguageType::Scheme => 13955557int,
        LanguageType::Scons => 11858419int,
        LanguageType::Sml => 37026345int,
        LanguageType::Solidity => 18151417int,
        LanguageType::SpecmanE => 20248677int,
        LanguageType::Spice => 28637300int,
        LanguageType::Sql => 7661772int,
        LanguageType::SRecode => 34924901int,
        LanguageType::Stan => 9763438int,
        LanguageType::Stratego => 24443476int,
        LanguageType::Stylus => 13957747int,
        LanguageType::Svelte => 13957989int,
        LanguageType::Svg => 7662407int,
        LanguageType::Swift => 11860980int,
        LanguageType::Swig => 9759687int,
        LanguageType::SystemVerilog => 28638439int,
        LanguageType::Tcl => 7676364int,
        LanguageType::Tera => 9777889int,
        LanguageType::Tex => 7680728int,
        LanguageType::Text => 22296180int,
        LanguageType::Thrift => 13972596int,
        LanguageType::Toml => 9775052int,
        LanguageType::Tsx => 7678424int,
        LanguageType::Ttcn => 13969971int,
        LanguageType::Twig => 9780199int,
        LanguageType::TypeScript => 22363380int,
        LanguageType::UnrealPlugin => 28669806int,
        LanguageType::UnrealProject => 30766964int,
        LanguageType::UnrealScript => 28669812int,
        LanguageType::UnrealShader => 28669810int,
        LanguageType::UnrealShaderHeader => 43349874int,
        LanguageType::UnrealDeveloperMarkdown => 32864110int,
        LanguageType::UrWeb => 13990242int,
        LanguageType::UrWebProject => 30767476int,
        LanguageType::Vala => 9810145int,
        LanguageType::VB6 => 7708982int,
        LanguageType::VBScript => 18194804int,
        LanguageType::Velocity => 32536697int,
        LanguageType::Verilog => 16102119int,
        LanguageType::VerilogArgsFile => 37073637int,
        LanguageType::Vhdl => 9806924int,
        LanguageType::VisualBasic => 26588387int,
        LanguageType::VisualStudioSolution => 47559918int,
        LanguageType::VisualStudioProject => 45462772int,
        LanguageType::VimScript => 22394100int,
        LanguageType::Vue => 7715557int,
        LanguageType::WebAssembly => 24507129int,
        LanguageType::Wolfram => 16119789int,
        LanguageType::Xaml => 9838796int,
        LanguageType::XcodeConfig => 26620391int,
        LanguageType::Xml => 7743180int,
        LanguageType::XSL => 7743948int,
        LanguageType::MsBuild => 15952356int,
        LanguageType::Xtend => 11942500int,
        LanguageType::Yaml => 9855180int,
        LanguageType::Zig => 7779559int,
        LanguageType::Zsh => 7780840int,
    }
}

/// `name_key` applied to a language's display name agrees with the
/// table `name_key_of`.
pub proof fn lemma_name_key(t: LanguageType)
    ensures
        name_key(name_spec(t)) == name_key_of(t),
{
    match t {
        LanguageType::Abap => {
            reveal_strlit("ABAP");
            assert(name_key("ABAP"@) == 9462096int);
        },
        LanguageType::ABNF => {
            reveal_strlit("ABNF");
            assert(name_key("ABNF"@) == 9462086int);
        },
        LanguageType::ActionScript => {
            reveal_strlit("ActionScript");
            assert(name_key("ActionScript"@) == 26243572int);
        },
        LanguageType::Ada => {
            reveal_strlit("Ada");
            assert(name_key("Ada"@) == 7369313int);
        },
        LanguageType::Alex => {
            reveal_strlit("Alex");
            assert(name_key("Alex"@) == 9467512int);
        },
        LanguageType::Agda => {
            reveal_strlit("Agda");
            assert(name_key("Agda"@) == 9466849int);
        },
        LanguageType::Alloy => {
            reveal_strlit("Alloy");
            assert(name_key("Alloy"@) == 11564665int);
        },
        LanguageType::Arduino => {
            reveal_strlit("Arduino C++");
            assert(name_key("Arduino C++"@) == 24148267int);
        },
        LanguageType::AsciiDoc => {
            reveal_strlit("AsciiDoc");
            assert(name_key("AsciiDoc"@) == 17856995int);
        },
        LanguageType::Asn1 => {
            reveal_strlit("ASN.1");
            assert(name_key("ASN.1"@) == 11561393int);
        },
        LanguageType::Assembly => {
            reveal_strlit("Assembly");
            assert(name_key("Assembly"@) == 17857017int);
        },
        LanguageType::AssemblyGAS => {
            reveal_strlit("GNU Style Assembly");
            assert(name_key("GNU Style Assembly"@) == 38922105int);
        },
        LanguageType::Asp => {
            reveal_strlit("ASP");
            assert(name_key("ASP"@) == 7367120int);
        },
        LanguageType::AspNet => {
            reveal_strlit("ASP.NET");
            assert(name_key("ASP.NET"@) == 15755732int);
        },
        LanguageType::Autoconf => {
            reveal_strlit("Autoconf");
            assert(name_key("Autoconf"@) == 17857254int);
        },
        LanguageType::AutoHotKey => {
            reveal_strlit("AutoHotKey");
            assert(name_key("AutoHotKey"@) == 22051577int);
        },
        LanguageType::Automake => {
            reveal_strlit("Automake");
            assert(name_key("Automake"@) == 17857253int);
        },
        LanguageType::Sh => {
            reveal_strlit("Shell");
            assert(name_key("Shell"@) == 11859052int);
        },
        LanguageType::Bash => {
            reveal_strlit("BASH");
            assert(name_key("BASH"@) == 9478344int);
        },
        LanguageType::BrightScript => {
            reveal_strlit("BrightScript");
            assert(name_key("BrightScript"@) == 26261876int);
        },
        LanguageType::Elvish => {
            reveal_strlit("Elvish");
            assert(name_key("Elvish"@) == 13727336int);
        },
        LanguageType::Fish => {
            reveal_strlit("Fish");
            assert(name_key("Fish"@) == 9549032int);
        },
        LanguageType::Batch => {
            reveal_strlit("Batch");
            assert(name_key("Batch"@) == 11579624int);
        },
        LanguageType::Bean => {
            reveal_strlit("Bean");
            assert(name_key("Bean"@) == 9482990int);
        },
        LanguageType::C => {
            reveal_strlit("C");
            assert(name_key("C"@) == 3194947int);
        },
        LanguageType::Cabal => {
            reveal_strlit("Cabal");
            assert(name_key("Cabal"@) == 11596012int);
        },
        LanguageType::Cassius => {
            reveal_strlit("Cassius");
            assert(name_key("Cassius"@) == 15790323int);
        },
        LanguageType::Ceylon => {
            reveal_strlit("Ceylon");
            assert(name_key("Ceylon"@) == 13693678int);
        },
        LanguageType::CHeader => {
            reveal_strlit("C Header");
            assert(name_key("C Header"@) == 17879154int);
        },
        LanguageType::Clojure => {
            reveal_strlit("Clojure");
            assert(name_key("Clojure"@) == 15791717int);
        },
        LanguageType::ClojureScript => {
            reveal_strlit("ClojureScript");
            assert(name_key("ClojureScript"@) == 28374644int);
        },
        LanguageType::ClojureC => {
            reveal_strlit("ClojureC");
            assert(name_key("ClojureC"@) == 17888835int);
        },
        LanguageType::CMake => {
            reveal_strlit("CMake");
            assert(name_key("CMake"@) == 11593445int);
        },
        LanguageType::Cobol => {
            reveal_strlit("COBOL");
            assert(name_key("COBOL"@) == 11593676int);
        },
        LanguageType::CodeQL => {
            reveal_strlit("CodeQL");
            assert(name_key("CodeQL"@) == 13694924int);
        },
        LanguageType::CoffeeScript => {
            reveal_strlit("CoffeeScript");
            assert(name_key("CoffeeScript"@) == 26277876int);
        },
        LanguageType::Cogent => {
            reveal_strlit("Cogent");
            assert(name_key("Cogent"@) == 13694964int);
        },
        LanguageType::ColdFusion => {
            reveal_strlit("ColdFusion");
            assert(name_key("ColdFusion"@) == 22083566int);
        },
        LanguageType::ColdFusionScript => {
            reveal_strlit("ColdFusion CFScript");
            assert(name_key("ColdFusion CFScript"@) == 40957940int);
        },
        LanguageType::Coq => {
            reveal_strlit("Coq");
            assert(name_key("Coq"@) == 7403505int);
        },
        LanguageType::Cpp => {
            reveal_strlit("C++");
            assert(name_key("C++"@) == 7394731int);
        },
        LanguageType::CppHeader => {
            reveal_strlit("C++ Header");
            assert(name_key("C++ Header"@) == 22074866int);
        },
        LanguageType::Crystal => {
            reveal_strlit("Crystal");
            assert(name_key("Crystal"@) == 15792492int);
        },
        LanguageType::CSharp => {
            reveal_strlit("C#");
            assert(name_key("C#"@) == 5296547int);
        },
        LanguageType::CShell => {
            reveal_strlit("C Shell");
            assert(name_key("C Shell"@) == 15781996int);
        },
        LanguageType::Css => {
            reveal_strlit("CSS");
            assert(name_key("CSS"@) == 7399891int);
        },
        LanguageType::D => {
            reveal_strlit("D");
            assert(name_key("D"@) == 3211332int);
        },
        LanguageType::Daml => {
            reveal_strlit("DAML");
            assert(name_key("DAML"@) == 9511116int);
        },
        LanguageType::Dart => {
            reveal_strlit("Dart");
            assert(name_key("Dart"@) == 9515252int);
        },
        LanguageType::DeviceTree => {
            reveal_strlit("Device Tree");
            assert(name_key("Device Tree"@) == 24195813int);
        },
        LanguageType::Dhall => {
            reveal_strlit("Dhall");
            assert(name_key("Dhall"@) == 11613292int);
        },
        LanguageType::DreamMaker => {
            reveal_strlit("Dream Maker");
            assert(name_key("Dream Maker"@) == 24197490int);
        },
        LanguageType::Dockerfile => {
            reveal_strlit("Dockerfile");
            assert(name_key("Dockerfile"@) == 22099941int);
        },
        LanguageType::DotNetResource => {
            reveal_strlit(".NET Resource");
            assert(name_key(".NET Resource"@) == 28026725int);
        },
        LanguageType::Dust => {
            reveal_strlit("Dust.js");
            assert(name_key("Dust.js"@) == 15809267int);
        },
        LanguageType::Edn => {
            reveal_strlit("Edn");
            assert(name_key("Edn"@) == 7434862int);
        },
        LanguageType::Elisp => {
            reveal_strlit("Emacs Lisp");
            assert(name_key("Emacs Lisp"@) == 22116080int);
        },
        LanguageType::Elixir => {
            reveal_strlit("Elixir");
            assert(name_key("Elixir"@) == 13727346int);
        },
        LanguageType::Elm => {
            reveal_strlit("Elm");
            assert(name_key("Elm"@) == 7435885int);
        },
        LanguageType::EmacsDevEnv => {
            reveal_strlit("Emacs Dev Env");
            assert(name_key("Emacs Dev Env"@) == 28407542int);
        },
        LanguageType::Emojicode => {
            reveal_strlit("Emojicode");
            assert(name_key("Emojicode"@) == 20018917int);
        },
        LanguageType::Erlang => {
            reveal_strlit("Erlang");
            assert(name_key("Erlang"@) == 13728103int);
        },
        LanguageType::FEN => {
            reveal_strlit("FEN");
            assert(name_key("FEN"@) == 7447246int);
        },
        LanguageType::FlatBuffers => {
            reveal_strlit("FlatBuffers Schema");
            assert(name_key("FlatBuffers Schema"@) == 38909537int);
        },
        LanguageType::Fstar => {
            reveal_strlit("F*");
            assert(name_key("F*"@) == 5346602int);
        },
        LanguageType::Forth => {
            reveal_strlit("Forth");
            assert(name_key("Forth"@) == 11646952int);
        },
        LanguageType::FortranLegacy => {
            reveal_strlit("FORTRAN Legacy");
            assert(name_key("FORTRAN Legacy"@) == 30517241int);
        },
        LanguageType::FortranModern => {
            reveal_strlit("FORTRAN Modern");
            assert(name_key("FORTRAN Modern"@) == 30517230int);
        },
        LanguageType::FreeMarker => {
            reveal_strlit("FreeMarker");
            assert(name_key("FreeMarker"@) == 22133106int);
        },
        LanguageType::FSharp => {
            reveal_strlit("F#");
            assert(name_key("F#"@) == 5345699int);
        },
        LanguageType::Futhark => {
            reveal_strlit("Futhark");
            assert(name_key("Futhark"@) == 15842027int);
        },
        LanguageType::GDB => {
            reveal_strlit("GDB Script");
            assert(name_key("GDB Script"@) == 22143604int);
        },
        LanguageType::GdScript => {
            reveal_strlit("GDScript");
            assert(name_key("GDScript"@) == 17949300int);
        },
        LanguageType::Gherkin => {
            reveal_strlit("Gherkin (Cucumber)");
            assert(name_key("Gherkin (Cucumber)"@) == 38925353int);
        },
        LanguageType::Gleam => {
            reveal_strlit("Gleam");
            assert(name_key("Gleam"@) == 11662957int);
        },
        LanguageType::Glsl => {
            reveal_strlit("GLSL");
            assert(name_key("GLSL"@) == 9561676int);
        },
        LanguageType::Go => {
            reveal_strlit("Go");
            assert(name_key("Go"@) == 5371887int);
        },
        LanguageType::Gohtml => {
            reveal_strlit("Go HTML");
            assert(name_key("Go HTML"@) == 15857612int);
        },
        LanguageType::Graphql => {
            reveal_strlit("GraphQL");
            assert(name_key("GraphQL"@) == 15857996int);
        },
        LanguageType::Groovy => {
            reveal_strlit("Groovy");
            assert(name_key("Groovy"@) == 13760889int);
        },
        LanguageType::Gwion => {
            reveal_strlit("Gwion");
            assert(name_key("Gwion"@) == 11664366int);
        },
        LanguageType::Happy => {
            reveal_strlit("Happy");
            assert(name_key("Happy"@) == 11677945int);
        },
        LanguageType::Handlebars => {
            reveal_strlit("Handlebars");
            assert(name_key("Handlebars"@) == 22163699int);
        },
        LanguageType::Haskell => {
            reveal_strlit("Haskell");
            assert(name_key("Haskell"@) == 15872236int);
        },
        LanguageType::Hcl => {
            reveal_strlit("HCL");
            assert(name_key("HCL"@) == 7479756int);
        },
        LanguageType::Headache => {
            reveal_strlit("Headache");
            assert(name_key("Headache"@) == 17969893int);
        },
        LanguageType::Hlsl => {
            reveal_strlit("HLSL");
            assert(name_key("HLSL"@) == 9578060int);
        },
        LanguageType::HolyC => {
            reveal_strlit("HolyC");
            assert(name_key("HolyC"@) == 11679683int);
        },
        LanguageType::Html => {
            reveal_strlit("HTML");
            assert(name_key("HTML"@) == 9579084int);
        },
        LanguageType::Hamlet => {
            reveal_strlit("Hamlet");
            assert(name_key("Hamlet"@) == 13775092int);
        },
        LanguageType::Haxe => {
            reveal_strlit("Haxe");
            assert(name_key("Haxe"@) == 9580773int);
        },
        LanguageType::Hex => {
            reveal_strlit("HEX");
            assert(name_key("HEX"@) == 7480024int);
        },
        LanguageType::Idris => {
            reveal_strlit("Idris");
            assert(name_key("Idris"@) == 11694707int);
        },
        LanguageType::Ini => {
            reveal_strlit("INI");
            assert(name_key("INI"@) == 7497545int);
        },
        LanguageType::IntelHex => {
            reveal_strlit("Intel HEX");
            assert(name_key("Intel HEX"@) == 20084568int);
        },
        LanguageType::Isabelle => {
            reveal_strlit("Isabelle");
            assert(name_key("Isabelle"@) == 17988069int);
        },
        LanguageType::Jai => {
            reveal_strlit("JAI");
            assert(name_key("JAI"@) == 7512265int);
        },
        LanguageType::Java => {
            reveal_strlit("Java");
            assert(name_key("Java"@) == 9613537int);
        },
        LanguageType::JavaScript => {
            reveal_strlit("JavaScript");
            assert(name_key("JavaScript"@) == 22196468int);
        },
        LanguageType::Json => {
            reveal_strlit("JSON");
            assert(name_key("JSON"@) == 9611726int);
        },
        LanguageType::Jsonnet => {
            reveal_strlit("Jsonnet");
            assert(name_key("Jsonnet"@) == 15907316int);
        },
        LanguageType::Jsx => {
            reveal_strlit("JSX");
            assert(name_key("JSX"@) == 7514584int);
        },
        LanguageType::Julia => {
            reveal_strlit("Julia");
            assert(name_key("Julia"@) == 11713249int);
        },
        LanguageType::Julius => {
            reveal_strlit("Julius");
            assert(name_key("Julius"@) == 13810419int);
        },
        LanguageType::Jupyter => {
            reveal_strlit("Jupyter Notebooks");
            assert(name_key("Jupyter Notebooks"@) == 36879091int);
        },
        LanguageType::K => {
            reveal_strlit("K");
            assert(name_key("K"@) == 3326027int);
        },
        LanguageType::KakouneScript => {
            reveal_strlit("Kakoune script");
            assert(name_key("Kakoune script"@) == 30601460int);
        },
        LanguageType::Kotlin => {
            reveal_strlit("Kotlin");
            assert(name_key("Kotlin"@) == 13826030int);
        },
        LanguageType::Lean => {
            reveal_strlit("Lean");
            assert(name_key("Lean"@) == 9646830int);
        },
        LanguageType::Less => {
            reveal_strlit("LESS");
            assert(name_key("LESS"@) == 9642707int);
        },
        LanguageType::Liquid => {
            reveal_strlit("Liquid");
            assert(name_key("Liquid"@) == 13841636int);
        },
        LanguageType::LinkerScript => {
            reveal_strlit("LD Script");
            assert(name_key("LD Script"@) == 20128372int);
        },
        LanguageType::Lisp => {
            reveal_strlit("Lisp");
            assert(name_key("Lisp"@) == 9647344int);
        },
        LanguageType::LiveScript => {
            reveal_strlit("LiveScript");
            assert(name_key("LiveScript"@) == 22230260int);
        },
        LanguageType::LLVM => {
            reveal_strlit("LLVM");
            assert(name_key("LLVM"@) == 9643597int);
        },
        LanguageType::Logtalk => {
            reveal_strlit("Logtalk");
            assert(name_key("Logtalk"@) == 15939563int);
        },
        LanguageType::Lua => {
            reveal_strlit("Lua");
            assert(name_key("Lua"@) == 7551713int);
        },
        LanguageType::Lucius => {
            reveal_strlit("Lucius");
            assert(name_key("Lucius"@) == 13843187int);
        },
        LanguageType::Madlang => {
            reveal_strlit("Madlang");
            assert(name_key("Madlang"@) == 15954151int);
        },
        LanguageType::Makefile => {
            reveal_strlit("Makefile");
            assert(name_key("Makefile"@) == 18051301int);
        },
        LanguageType::Markdown => {
            reveal_strlit("Markdown");
            assert(name_key("Markdown"@) == 18051310int);
        },
        LanguageType::ModuleDef => {
            reveal_strlit("Module-Definition");
            assert(name_key("Module-Definition"@) == 36927470int);
        },
        LanguageType::MoonScript => {
            reveal_strlit("MoonScript");
            assert(name_key("MoonScript"@) == 22247412int);
        },
        LanguageType::Meson => {
            reveal_strlit("Meson");
            assert(name_key("Meson"@) == 11760366int);
        },
        LanguageType::Mint => {
            reveal_strlit("Mint");
            assert(name_key("Mint"@) == 9663732int);
        },
        LanguageType::Mustache => {
            reveal_strlit("Mustache");
            assert(name_key("Mustache"@) == 18053861int);
        },
        LanguageType::Nim => {
            reveal_strlit("Nim");
            assert(name_key("Nim"@) == 7582957int);
        },
        LanguageType::Nix => {
            reveal_strlit("Nix");
            assert(name_key("Nix"@) == 7582968int);
        },
        LanguageType::ObjectiveC => {
            reveal_strlit("Objective-C");
            assert(name_key("Objective-C"@) == 24375619int);
        },
        LanguageType::ObjectiveCpp => {
            reveal_strlit("Objective-C++");
            assert(name_key("Objective-C++"@) == 28569899int);
        },
        LanguageType::OCaml => {
            reveal_strlit("OCaml");
            assert(name_key("OCaml"@) == 11788780int);
        },
        LanguageType::Odin => {
            reveal_strlit("Odin");
            assert(name_key("Odin"@) == 9695854int);
        },
        LanguageType::OpenType => {
            reveal_strlit("OpenType Feature File");
            assert(name_key("OpenType Feature File"@) == 45348965int);
        },
        LanguageType::Org => {
            reveal_strlit("Org");
            assert(name_key("Org"@) == 7600487int);
        },
        LanguageType::Oz => {
            reveal_strlit("Oz");
            assert(name_key("Oz"@) == 5504378int);
        },
        LanguageType::Pan => {
            reveal_strlit("Pan");
            assert(name_key("Pan"@) == 7614702int);
        },
        LanguageType::Pascal => {
            reveal_strlit("Pascal");
            assert(name_key("Pascal"@) == 13906156int);
        },
        LanguageType::Perl => {
            reveal_strlit("Perl");
            assert(name_key("Perl"@) == 9712364int);
        },
        LanguageType::Perl6 => {
            reveal_strlit("Rakudo");
            assert(name_key("Rakudo"@) == 13938927int);
        },
        LanguageType::Pest => {
            reveal_strlit("Pest");
            assert(name_key("Pest"@) == 9712372int);
        },
        LanguageType::NotQuitePerl => {
            reveal_strlit("Not Quite Perl");
            assert(name_key("Not Quite Perl"@) == 30652396int);
        },
        LanguageType::Php => {
            reveal_strlit("PHP");
            assert(name_key("PHP"@) == 7611472int);
        },
        LanguageType::Polly => {
            reveal_strlit("Polly");
            assert(name_key("Polly"@) == 11810809int);
        },
        LanguageType::Pony => {
            reveal_strlit("Pony");
            assert(name_key("Pony"@) == 9713657int);
        },
        LanguageType::PostCss => {
            reveal_strlit("PostCSS");
            assert(name_key("PostCSS"@) == 16005075int);
        },
        LanguageType::Processing => {
            reveal_strlit("Processing");
            assert(name_key("Processing"@) == 22296935int);
        },
        LanguageType::Prolog => {
            reveal_strlit("Prolog");
            assert(name_key("Prolog"@) == 13908327int);
        },
        LanguageType::PowerShell => {
            reveal_strlit("PowerShell");
            assert(name_key("PowerShell"@) == 22296556int);
        },
        LanguageType::PSL => {
            reveal_strlit("PSL Assertion");
            assert(name_key("PSL Assertion"@) == 28584430int);
        },
        LanguageType::Protobuf => {
            reveal_strlit("Protocol Buffers");
            assert(name_key("Protocol Buffers"@) == 34879859int);
        },
        LanguageType::Pug => {
            reveal_strlit("Pug");
            assert(name_key("Pug"@) == 7617255int);
        },
        LanguageType::PureScript => {
            reveal_strlit("PureScript");
            assert(name_key("PureScript"@) == 22297332int);
        },
        LanguageType::Python => {
            reveal_strlit("Python");
            assert(name_key("Python"@) == 13909230int);
        },
        LanguageType::Qcl => {
            reveal_strlit("QCL");
            assert(name_key("QCL"@) == 7627212int);
        },
        LanguageType::Q => {
            reveal_strlit("Q");
            assert(name_key("Q"@) == 3424337int);
        },
        LanguageType::Qml => {
            reveal_strlit("QML");
            assert(name_key("QML"@) == 7628492int);
        },
        LanguageType::R => {
            reveal_strlit("R");
            assert(name_key("R"@) == 3440722int);
        },
        LanguageType::Racket => {
            reveal_strlit("Racket");
            assert(name_key("Racket"@) == 13938932int);
        },
        LanguageType::Rakefile => {
            reveal_strlit("Rakefile");
            assert(name_key("Rakefile"@) == 18133221int);
        },
        LanguageType::Razor => {
            reveal_strlit("Razor");
            assert(name_key("Razor"@) == 11841778int);
        },
        LanguageType::Renpy => {
            reveal_strlit("Ren'Py");
            assert(name_key("Ren'Py"@) == 13939449int);
        },
        LanguageType::RON => {
            reveal_strlit("Rusty Object Notation");
            assert(name_key("Rusty Object Notation"@) == 45398766int);
        },
        LanguageType::RPMSpecfile => {
            reveal_strlit("RPM Specfile");
            assert(name_key("RPM Specfile"@) == 26519653int);
        },
        LanguageType::Ruby => {
            reveal_strlit("Ruby");
            assert(name_key("Ruby"@) == 9747193int);
        },
        LanguageType::RubyHtml => {
            reveal_strlit("Ruby HTML");
            assert(name_key("Ruby HTML"@) == 20232908int);
        },
        LanguageType::Rust => {
            reveal_strlit("Rust");
            assert(name_key("Rust"@) == 9747188int);
        },
        LanguageType::ReStructuredText => {
            reveal_strlit("ReStructuredText");
            assert(name_key("ReStructuredText"@) == 34910964int);
        },
        LanguageType::Sass => {
            reveal_strlit("Sass");
            assert(name_key("Sass"@) == 9761011int);
        },
        LanguageType::Scala => {
            reveal_strlit("Scala");
            assert(name_key("Scala"@) == 11858401int);
        },
        LanguageType::Scheme => {
            reveal_strlit("Scheme");
            assert(name_key("Scheme"@) == 13955557int);
        },
        LanguageType::Scons => {
            reveal_strlit("Scons");
            assert(name_key("Scons"@) == 11858419int);
        },
        LanguageType::Sml => {
            reveal_strlit("Standard ML (SML)");
            assert(name_key("Standard ML (SML)"@) == 37026345int);
        },
        LanguageType::Solidity => {
            reveal_strlit("Solidity");
            assert(name_key("Solidity"@) == 18151417int);
        },
        LanguageType::SpecmanE => {
            reveal_strlit("Specman e");
            assert(name_key("Specman e"@) == 20248677int);
        },
        LanguageType::Spice => {
            reveal_strlit("Spice Netlist");
            assert(name_key("Spice Netlist"@) == 28637300int);
        },
        LanguageType::Sql => {
            reveal_strlit("SQL");
            assert(name_key("SQL"@) == 7661772int);
        },
        LanguageType::SRecode => {
            reveal_strlit("SRecode Template");
            assert(name_key("SRecode Template"@) == 34924901int);
        },
        LanguageType::Stan => {
            reveal_strlit("Stan");
            assert(name_key("Stan"@) == 9763438int);
        },
        LanguageType::Stratego => {
            reveal_strlit("Stratego/XT");
            assert(name_key("Stratego/XT"@) == 24443476int);
        },
        LanguageType::Stylus => {
            reveal_strlit("Stylus");
            assert(name_key("Stylus"@) == 13957747int);
        },
        LanguageType::Svelte => {
            reveal_strlit("Svelte");
            assert(name_key("Svelte"@) == 13957989int);
        },
        LanguageType::Svg => {
            reveal_strlit("SVG");
            assert(name_key("SVG"@) == 7662407int);
        },
        LanguageType::Swift => {
            reveal_strlit("Swift");
            assert(name_key("Swift"@) == 11860980int);
        },
        LanguageType::Swig => {
            reveal_strlit("SWIG");
            assert(name_key("SWIG"@) == 9759687int);
        },
        LanguageType::SystemVerilog => {
            reveal_strlit("SystemVerilog");
            assert(name_key("SystemVerilog"@) == 28638439int);
        },
        LanguageType::Tcl => {
            reveal_strlit("TCL");
            assert(name_key("TCL"@) == 7676364int);
        },
        LanguageType::Tera => {
            reveal_strlit("Tera");
            assert(name_key("Tera"@) == 9777889int);
        },
        LanguageType::Tex => {
            reveal_strlit("TeX");
            assert(name_key("TeX"@) == 7680728int);
        },
        LanguageType::Text => {
            reveal_strlit("Plain Text");
            assert(name_key("Plain Text"@) == 22296180int);
        },
        LanguageType::Thrift => {
            reveal_strlit("Thrift");
            assert(name_key("Thrift"@) == 13972596int);
        },
        LanguageType::Toml => {
            reveal_strlit("TOML");
            assert(name_key("TOML"@) == 9775052int);
        },
        LanguageType::Tsx => {
            reveal_strlit("TSX");
            assert(name_key("TSX"@) == 7678424int);
        },
        LanguageType::Ttcn => {
            reveal_strlit("TTCN-3");
            assert(name_key("TTCN-3"@) == 13969971int);
        },
        LanguageType::Twig => {
            reveal_strlit("Twig");
            assert(name_key("Twig"@) == 9780199int);
        },
        LanguageType::TypeScript => {
            reveal_strlit("TypeScript");
            assert(name_key("TypeScript"@) == 22363380int);
        },
        LanguageType::UnrealPlugin => {
            reveal_strlit("Unreal Plugin");
            assert(name_key("Unreal Plugin"@) == 28669806int);
        },
        LanguageType::UnrealProject => {
            reveal_strlit("Unreal Project");
            assert(name_key("Unreal Project"@) == 30766964int);
        },
        LanguageType::UnrealScript => {
            reveal_strlit("Unreal Script");
            assert(name_key("Unreal Script"@) == 28669812int);
        },
        LanguageType::UnrealShader => {
            reveal_strlit("Unreal Shader");
            assert(name_key("Unreal Shader"@) == 28669810int);
        },
        LanguageType::UnrealShaderHeader => {
            reveal_strlit("Unreal Shader Header");
            assert(name_key("Unreal Shader Header"@) == 43349874int);
        },
        LanguageType::UnrealDeveloperMarkdown => {
            reveal_strlit("Unreal Markdown");
            assert(name_key("Unreal Markdown"@) == 32864110int);
        },
        LanguageType::UrWeb => {
            reveal_strlit("Ur/Web");
            assert(name_key("Ur/Web"@) == 13990242int);
        },
        LanguageType::UrWebProject => {
            reveal_strlit("Ur/Web Project");
            assert(name_key("Ur/Web Project"@) == 30767476int);
        },
        LanguageType::Vala => {
            reveal_strlit("Vala");
            assert(name_key("Vala"@) == 9810145int);
        },
        LanguageType::VB6 => {
            reveal_strlit("VB6");
            assert(name_key("VB6"@) == 7708982int);
        },
        LanguageType::VBScript => {
            reveal_strlit("VBScript");
            assert(name_key("VBScript"@) == 18194804int);
        },
        LanguageType::Velocity => {
            reveal_strlit("Apache Velocity");
            assert(name_key("Apache Velocity"@) == 32536697int);
        },
        LanguageType::Verilog => {
            reveal_strlit("Verilog");
            assert(name_key("Verilog"@) == 16102119int);
        },
        LanguageType::VerilogArgsFile => {
            reveal_strlit("Verilog Args File");
            assert(name_key("Verilog Args File"@) == 37073637int);
        },
        LanguageType::Vhdl => {
            reveal_strlit("VHDL");
            assert(name_key("VHDL"@) == 9806924int);
        },
        LanguageType::VisualBasic => {
            reveal_strlit("Visual Basic");
            assert(name_key("Visual Basic"@) == 26588387int);
        },
        LanguageType::VisualStudioSolution => {
            reveal_strlit("Visual Studio Solution");
            assert(name_key("Visual Studio Solution"@) == 47559918int);
        },
        LanguageType::VisualStudioProject => {
            reveal_strlit("Visual Studio Project");
            assert(name_key("Visual Studio Project"@) == 45462772int);
        },
        LanguageType::VimScript => {
            reveal_strlit("Vim script");
            assert(name_key("Vim script"@) == 22394100int);
        },
        LanguageType::Vue => {
            reveal_strlit("Vue");
            assert(name_key("Vue"@) == 7715557int);
        },
        LanguageType::WebAssembly => {
            reveal_strlit("WebAssembly");
            assert(name_key("WebAssembly"@) == 24507129int);
        },
        LanguageType::Wolfram => {
            reveal_strlit("Wolfram");
            assert(name_key("Wolfram"@) == 16119789int);
        },
        LanguageType::Xaml => {
            reveal_strlit("XAML");
            assert(name_key("XAML"@) == 9838796int);
        },
        LanguageType::XcodeConfig => {
            reveal_strlit("Xcode Config");
            assert(name_key("Xcode Config"@) == 26620391int);
        },
        LanguageType::Xml => {
            reveal_strlit("XML");
            assert(name_key("XML"@) == 7743180int);
        },
        LanguageType::XSL => {
            reveal_strlit("XSL");
            assert(name_key("XSL"@) == 7743948int);
        },
        LanguageType::MsBuild => {
            reveal_strlit("MSBuild");
            assert(name_key("MSBuild"@) == 15952356int);
        },
        LanguageType::Xtend => {
            reveal_strlit("Xtend");
            assert(name_key("Xtend"@) == 11942500int);
        },
        LanguageType::Yaml => {
            reveal_strlit("YAML");
            assert(name_key("YAML"@) == 9855180int);
        },
        LanguageType::Zig => {
            reveal_strlit("Zig");
            assert(name_key("Zig"@) == 7779559int);
        },
        LanguageType::Zsh => {
            reveal_strlit("Zsh");
            assert(name_key("Zsh"@) == 7780840int);
        },
    }
}

/// No two languages share a display name: the reverse mapping from
/// name to variant is injective over the whole registry.
pub proof fn lemma_name_injective(t1: LanguageType, t2: LanguageType)
    requires
        name_spec(t1) == name_spec(t2),
    ensures
        t1 == t2,
{
    lemma_name_key(t1);
    lemma_name_key(t2);
    assert(name_key_of(t1) == name_key_of(t2));
}

/// The language standing at position `i` of the registry's listing order.
pub open spec fn lang_at(i: int) -> LanguageType {
    if i < 113 {
        if i < 56 {
            if i < 28 {
                if i < 14 {
                    if i < 7 {
                        if i < 3 {
                            if i < 1 {
                                LanguageType::Abap
                            } else {
                                if i < 2 {
                                    LanguageType::ABNF
                                } else {
                                    LanguageType::ActionScript
                                }
                            }
                        } else {
                            if i < 5 {
                                if i < 4 {
                                    LanguageType::Ada
                                } else {
                                    LanguageType::Alex
                                }
                            } else {
                                if i < 6 {
                                    LanguageType::Agda
                                } else {
                                    LanguageType::Alloy
                                }
                            }
                        }
                    } else {
                        if i < 10 {
                            if i < 8 {
                                LanguageType::Arduino
                            } else {
                                if i < 9 {
                                    LanguageType::AsciiDoc
                                } else {
                                    LanguageType::Asn1
                                }
                            }
                        } else {
                            if i < 12 {
                                if i < 11 {
                                    LanguageType::Assembly
                                } else {
                                    LanguageType::AssemblyGAS
                                }
                            } else {
                                if i < 13 {
                                    LanguageType::Asp
                                } else {
                                    LanguageType::AspNet
                                }
                            }
                        }
                    }
                } else {
                    if i < 21 {
                        if i < 17 {
                            if i < 15 {
                                LanguageType::Autoconf
                            } else {
                                if i < 16 {
                                    LanguageType::AutoHotKey
                                } else {
                                    LanguageType::Automake
                                }
                            }
                        } else {
                            if i < 19 {
                                if i < 18 {
                                    LanguageType::Sh
                                } else {
                                    LanguageType::Bash
                                }
                            } else {
                                if i < 20 {
                                    LanguageType::BrightScript
                                } else {
                                    LanguageType::Elvish
                                }
                            }
                        }
                    } else {
                        if i < 24 {
                            if i < 22 {
                                LanguageType::Fish
                            } else {
                                if i < 23 {
                                    LanguageType::Batch
                                } else {
                                    LanguageType::Bean
                                }
                            }
                        } else {
                            if i < 26 {
                                if i < 25 {
                                    LanguageType::C
                                } else {
                                    LanguageType::Cabal
                                }
                            } else {
                                if i < 27 {
                                    LanguageType::Cassius
                                } else {
                                    LanguageType::Ceylon
                                }
                            }
                        }
                    }
                }
            } else {
                if i < 42 {
                    if i < 35 {
                        if i < 31 {
                            if i < 29 {
                                LanguageType::CHeader
                            } else {
                                if i < 30 {
                                    LanguageType::Clojure
                                } else {
                                    LanguageType::ClojureScript
                                }
                            }
                        } else {
                            if i < 33 {
                                if i < 32 {
                                    LanguageType::ClojureC
                                } else {
                                    LanguageType::CMake
                                }
                            } else {
                                if i < 34 {
                                    LanguageType::Cobol
                                } else {
                                    LanguageType::CodeQL
                                }
                            }
                        }
                    } else {
                        if i < 38 {
                            if i < 36 {
                                LanguageType::CoffeeScript
                            } else {
                                if i < 37 {
                                    LanguageType::Cogent
                                } else {
                                    LanguageType::ColdFusion
                                }
                            }
                        } else {
                            if i < 40 {
                                if i < 39 {
                                    LanguageType::ColdFusionScript
                                } else {
                                    LanguageType::Coq
                                }
                            } else {
                                if i < 41 {
                                    LanguageType::Cpp
                                } else {
                                    LanguageType::CppHeader
                                }
                            }
                        }
                    }
                } else {
                    if i < 49 {
                        if i < 45 {
                            if i < 43 {
                                LanguageType::Crystal
                            } else {
                                if i < 44 {
                                    LanguageType::CSharp
                                } else {
                                    LanguageType::CShell
                                }
                            }
                        } else {
                            if i < 47 {
                                if i < 46 {
                                    LanguageType::Css
                                } else {
                                    LanguageType::D
                                }
                            } else {
                                if i < 48 {
                                    LanguageType::Daml
                                } else {
                                    LanguageType::Dart
                                }
                            }
                        }
                    } else {
                        if i < 52 {
                            if i < 50 {
                                LanguageType::DeviceTree
                            } else {
                                if i < 51 {
                                    LanguageType::Dhall
                                } else {
                                    LanguageType::DreamMaker
                                }
                            }
                        } else {
                            if i < 54 {
                                if i < 53 {
                                    LanguageType::Dockerfile
                                } else {
                                    LanguageType::DotNetResource
                                }
                            } else {
                                if i < 55 {
                                    LanguageType::Dust
                                } else {
                                    LanguageType::Edn
                                }
                            }
                        }
                    }
                }
            }
        } else {
            if i < 84 {
                if i < 70 {
                    if i < 63 {
                        if i < 59 {
                            if i < 57 {
                                LanguageType::Elisp
                            } else {
                                if i < 58 {
                                    LanguageType::Elixir
                                } else {
                                    LanguageType::Elm
                                }
                            }
                        } else {
                            if i < 61 {
                                if i < 60 {
                                    LanguageType::EmacsDevEnv
                                } else {
                                    LanguageType::Emojicode
                                }
                            } else {
                                if i < 62 {
                                    LanguageType::Erlang
                                } else {
                                    LanguageType::FEN
                                }
                            }
                        }
                    } else {
                        if i < 66 {
                            if i < 64 {
                                LanguageType::FlatBuffers
                            } else {
                                if i < 65 {
                                    LanguageType::Fstar
                                } else {
                                    LanguageType::Forth
                                }
                            }
                        } else {
                            if i < 68 {
                                if i < 67 {
                                    LanguageType::FortranLegacy
                                } else {
                                    LanguageType::FortranModern
                                }
                            } else {
                                if i < 69 {
                                    LanguageType::FreeMarker
                                } else {
                                    LanguageType::FSharp
                                }
                            }
                        }
                    }
                } else {
                    if i < 77 {
                        if i < 73 {
                            if i < 71 {
                                LanguageType::Futhark
                            } else {
                                if i < 72 {
                                    LanguageType::GDB
                                } else {
                                    LanguageType::GdScript
                                }
                            }
                        } else {
                            if i < 75 {
                                if i < 74 {
                                    LanguageType::Gherkin
                                } else {
                                    LanguageType::Gleam
                                }
                            } else {
                                if i < 76 {
                                    LanguageType::Glsl
                                } else {
                                    LanguageType::Go
                                }
                            }
                        }
                    } else {
                        if i < 80 {
                            if i < 78 {
                                LanguageType::Gohtml
                            } else {
                                if i < 79 {
                                    LanguageType::Graphql
                                } else {
                                    LanguageType::Groovy
                                }
                            }
                        } else {
                            if i < 82 {
                                if i < 81 {
                                    LanguageType::Gwion
                                } else {
                                    LanguageType::Happy
                                }
                            } else {
                                if i < 83 {
                                    LanguageType::Handlebars
                                } else {
                                    LanguageType::Haskell
                                }
                            }
                        }
                    }
                }
            } else {
                if i < 98 {
                    if i < 91 {
                        if i < 87 {
                            if i < 85 {
                                LanguageType::Hcl
                            } else {
                                if i < 86 {
                                    LanguageType::Headache
                                } else {
                                    LanguageType::Hlsl
                                }
                            }
                        } else {
                            if i < 89 {
                                if i < 88 {
                                    LanguageType::HolyC
                                } else {
                                    LanguageType::Html
                                }
                            } else {
                                if i < 90 {
                                    LanguageType::Hamlet
                                } else {
                                    LanguageType::Haxe
                                }
                            }
                        }
                    } else {
                        if i < 94 {
                            if i < 92 {
                                LanguageType::Hex
                            } else {
                                if i < 93 {
                                    LanguageType::Idris
                                } else {
                                    LanguageType::Ini
                                }
                            }
                        } else {
                            if i < 96 {
                                if i < 95 {
                                    LanguageType::IntelHex
                                } else {
                                    LanguageType::Isabelle
                                }
                            } else {
                                if i < 97 {
                                    LanguageType::Jai
                                } else {
                                    LanguageType::Java
                                }
                            }
                        }
                    }
                } else {
                    if i < 105 {
                        if i < 101 {
                            if i < 99 {
                                LanguageType::JavaScript
                            } else {
                                if i < 100 {
                                    LanguageType::Json
                                } else {
                                    LanguageType::Jsonnet
                                }
                            }
                        } else {
                            if i < 103 {
                                if i < 102 {
                                    LanguageType::Jsx
                                } else {
                                    LanguageType::Julia
                                }
                            } else {
                                if i < 104 {
                                    LanguageType::Julius
                                } else {
                                    LanguageType::Jupyter
                                }
                            }
                        }
                    } else {
                        if i < 109 {
                            if i < 107 {
                                if i < 106 {
                                    LanguageType::K
                                } else {
                                    LanguageType::KakouneScript
                                }
                            } else {
                                if i < 108 {
                                    LanguageType::Kotlin
                                } else {
                                    LanguageType::Lean
                                }
                            }
                        } else {
                            if i < 111 {
                                if i < 110 {
                                    LanguageType::Less
                                } else {
                                    LanguageType::Liquid
                                }
                            } else {
                                if i < 112 {
                                    LanguageType::LinkerScript
                                } else {
                                    LanguageType::Lisp
                                }
                            }
                        }
                    }
                }
            }
        }
    } else {
        if i < 169 {
            if i < 141 {
                if i < 127 {
                    if i < 120 {
                        if i < 116 {
                            if i < 114 {
                                LanguageType::LiveScript
                            } else {
                                if i < 115 {
                                    LanguageType::LLVM
                                } else {
                                    LanguageType::Logtalk
                                }
                            }
                        } else {
                            if i < 118 {
                                if i < 117 {
                                    LanguageType::Lua
                                } else {
                                    LanguageType::Lucius
                                }
                            } else {
                                if i < 119 {
                                    LanguageType::Madlang
                                } else {
                                    LanguageType::Makefile
                                }
                            }
                        }
                    } else {
                        if i < 123 {
                            if i < 121 {
                                LanguageType::Markdown
                            } else {
                                if i < 122 {
                                    LanguageType::ModuleDef
                                } else {
                                    LanguageType::MoonScript
                                }
                            }
                        } else {
                            if i < 125 {
                                if i < 124 {
                                    LanguageType::Meson
                                } else {
                                    LanguageType::Mint
                                }
                            } else {
                                if i < 126 {
                                    LanguageType::Mustache
                                } else {
                                    LanguageType::Nim
                                }
                            }
                        }
                    }
                } else {
                    if i < 134 {
                        if i < 130 {
                            if i < 128 {
                                LanguageType::Nix
                            } else {
                                if i < 129 {
                                    LanguageType::ObjectiveC
                                } else {
                                    LanguageType::ObjectiveCpp
                                }
                            }
                        } else {
                            if i < 132 {
                                if i < 131 {
                                    LanguageType::OCaml
                                } else {
                                    LanguageType::Odin
                                }
                            } else {
                                if i < 133 {
                                    LanguageType::OpenType
                                } else {
                                    LanguageType::Org
                                }
                            }
                        }
                    } else {
                        if i < 137 {
                            if i < 135 {
                                LanguageType::Oz
                            } else {
                                if i < 136 {
                                    LanguageType::Pan
                                } else {
                                    LanguageType::Pascal
                                }
                            }
                        } else {
                            if i < 139 {
                                if i < 138 {
                                    LanguageType::Perl
                                } else {
                                    LanguageType::Perl6
                                }
                            } else {
                                if i < 140 {
                                    LanguageType::Pest
                                } else {
                                    LanguageType::NotQuitePerl
                                }
                            }
                        }
                    }
                }
            } else {
                if i < 155 {
                    if i < 148 {
                        if i < 144 {
                            if i < 142 {
                                LanguageType::Php
                            } else {
                                if i < 143 {
                                    LanguageType::Polly
                                } else {
                                    LanguageType::Pony
                                }
                            }
                        } else {
                            if i < 146 {
                                if i < 145 {
                                    LanguageType::PostCss
                                } else {
                                    LanguageType::Processing
                                }
                            } else {
                                if i < 147 {
                                    LanguageType::Prolog
                                } else {
                                    LanguageType::PowerShell
                                }
                            }
                        }
                    } else {
                        if i < 151 {
                            if i < 149 {
                                LanguageType::PSL
                            } else {
                                if i < 150 {
                                    LanguageType::Protobuf
                                } else {
                                    LanguageType::Pug
                                }
                            }
                        } else {
                            if i < 153 {
                                if i < 152 {
                                    LanguageType::PureScript
                                } else {
                                    LanguageType::Python
                                }
                            } else {
                                if i < 154 {
                                    LanguageType::Qcl
                                } else {
                                    LanguageType::Q
                                }
                            }
                        }
                    }
                } else {
                    if i < 162 {
                        if i < 158 {
                            if i < 156 {
                                LanguageType::Qml
                            } else {
                                if i < 157 {
                                    LanguageType::R
                                } else {
                                    LanguageType::Racket
                                }
                            }
                        } else {
                            if i < 160 {
                                if i < 159 {
                                    LanguageType::Rakefile
                                } else {
                                    LanguageType::Razor
                                }
                            } else {
                                if i < 161 {
                                    LanguageType::Renpy
                                } else {
                                    LanguageType::RON
                                }
                            }
                        }
                    } else {
                        if i < 165 {
                            if i < 163 {
                                LanguageType::RPMSpecfile
                            } else {
                                if i < 164 {
                                    LanguageType::Ruby
                                } else {
                                    LanguageType::RubyHtml
                                }
                            }
                        } else {
                            if i < 167 {
                                if i < 166 {
                                    LanguageType::Rust
                                } else {
                                    LanguageType::ReStructuredText
                                }
                            } else {
                                if i < 168 {
                                    LanguageType::Sass
                                } else {
                                    LanguageType::Scala
                                }
                            }
                        }
                    }
                }
            }
        } else {
            if i < 197 {
                if i < 183 {
                    if i < 176 {
                        if i < 172 {
                            if i < 170 {
                                LanguageType::Scheme
                            } else {
                                if i < 171 {
                                    LanguageType::Scons
                                } else {
                                    LanguageType::Sml
                                }
                            }
                        } else {
                            if i < 174 {
                                if i < 173 {
                                    LanguageType::Solidity
                                } else {
                                    LanguageType::SpecmanE
                                }
                            } else {
                                if i < 175 {
                                    LanguageType::Spice
                                } else {
                                    LanguageType::Sql
                                }
                            }
                        }
                    } else {
                        if i < 179 {
                            if i < 177 {
                                LanguageType::SRecode
                            } else {
                                if i < 178 {
                                    LanguageType::Stan
                                } else {
                                    LanguageType::Stratego
                                }
                            }
                        } else {
                            if i < 181 {
                                if i < 180 {
                                    LanguageType::Stylus
                                } else {
                                    LanguageType::Svelte
                                }
                            } else {
                                if i < 182 {
                                    LanguageType::Svg
                                } else {
                                    LanguageType::Swift
                                }
                            }
                        }
                    }
                } else {
                    if i < 190 {
                        if i < 186 {
                            if i < 184 {
                                LanguageType::Swig
                            } else {
                                if i < 185 {
                                    LanguageType::SystemVerilog
                                } else {
                                    LanguageType::Tcl
                                }
                            }
                        } else {
                            if i < 188 {
                                if i < 187 {
                                    LanguageType::Tera
                                } else {
                                    LanguageType::Tex
                                }
                            } else {
                                if i < 189 {
                                    LanguageType::Text
                                } else {
                                    LanguageType::Thrift
                                }
                            }
                        }
                    } else {
                        if i < 193 {
                            if i < 191 {
                                LanguageType::Toml
                            } else {
                                if i < 192 {
                                    LanguageType::Tsx
                                } else {
                                    LanguageType::Ttcn
                                }
                            }
                        } else {
                            if i < 195 {
                                if i < 194 {
                                    LanguageType::Twig
                                } else {
                                    LanguageType::TypeScript
                                }
                            } else {
                                if i < 196 {
                                    LanguageType::UnrealPlugin
                                } else {
                                    LanguageType::UnrealProject
                                }
                            }
                        }
                    }
                }
            } else {
                if i < 211 {
                    if i < 204 {
                        if i < 200 {
                            if i < 198 {
                                LanguageType::UnrealScript
                            } else {
                                if i < 199 {
                                    LanguageType::UnrealShader
                                } else {
                                    LanguageType::UnrealShaderHeader
                                }
                            }
                        } else {
                            if i < 202 {
                                if i < 201 {
                                    LanguageType::UnrealDeveloperMarkdown
                                } else {
                                    LanguageType::UrWeb
                                }
                            } else {
                                if i < 203 {
                                    LanguageType::UrWebProject
                                } else {
                                    LanguageType::Vala
                                }
                            }
                        }
                    } else {
                        if i < 207 {
                            if i < 205 {
                                LanguageType::VB6
                            } else {
                                if i < 206 {
                                    LanguageType::VBScript
                                } else {
                                    LanguageType::Velocity
                                }
                            }
                        } else {
                            if i < 209 {
                                if i < 208 {
                                    LanguageType::Verilog
                                } else {
                                    LanguageType::VerilogArgsFile
                                }
                            } else {
                                if i < 210 {
                                    LanguageType::Vhdl
                                } else {
                                    LanguageType::VisualBasic
                                }
                            }
                        }
                    }
                } else {
                    if i < 218 {
                        if i < 214 {
                            if i < 212 {
                                LanguageType::VisualStudioSolution
                            } else {
                                if i < 213 {
                                    LanguageType::VisualStudioProject
                                } else {
                                    LanguageType::VimScript
                                }
                            }
                        } else {
                            if i < 216 {
                                if i < 215 {
                                    LanguageType::Vue
                                } else {
                                    LanguageType::WebAssembly
                                }
                            } else {
                                if i < 217 {
                                    LanguageType::Wolfram
                                } else {
                                    LanguageType::Xaml
                                }
                            }
                        }
                    } else {
                        if i < 222 {
                            if i < 220 {
                                if i < 219 {
                                    LanguageType::XcodeConfig
                                } else {
                                    LanguageType::Xml
                                }
                            } else {
                                if i < 221 {
                                    LanguageType::XSL
                                } else {
                                    LanguageType::MsBuild
                                }
                            }
                        } else {
                            if i < 224 {
                                if i < 223 {
                                    LanguageType::Xtend
                                } else {
                                    LanguageType::Yaml
                                }
                            } else {
                                if i < 225 {
                                    LanguageType::Zig
                                } else {
                                    LanguageType::Zsh
                                }
                            }
                        }
                    }
                }
            }
        }
    }
}

/// The full registry in listing order.
pub open spec fn list_spec() -> Seq<LanguageType> {
    Seq::new(226, |i: int| lang_at(i))
}

/// Every language appears in `list_spec`.
pub proof fn lemma_list_complete(t: LanguageType)
    ensures
        list_spec().contains(t),
{
    match t {
        LanguageType::Abap => {
            assert(list_spec()[0] == t);
        },
        LanguageType::ABNF => {
            assert(list_spec()[1] == t);
        },
        LanguageType::ActionScript => {
            assert(list_spec()[2] == t);
        },
        LanguageType::Ada => {
            assert(list_spec()[3] == t);
        },
        LanguageType::Alex => {
            assert(list_spec()[4] == t);
        },
        LanguageType::Agda => {
            assert(list_spec()[5] == t);
        },
        LanguageType::Alloy => {
            assert(list_spec()[6] == t);
        },
        LanguageType::Arduino => {
            assert(list_spec()[7] == t);
        },
        LanguageType::AsciiDoc => {
            assert(list_spec()[8] == t);
        },
        LanguageType::Asn1 => {
            assert(list_spec()[9] == t);
        },
        LanguageType::Assembly => {
            assert(list_spec()[10] == t);
        },
        LanguageType::AssemblyGAS => {
            assert(list_spec()[11] == t);
        },
        LanguageType::Asp => {
            assert(list_spec()[12] == t);
        },
        LanguageType::AspNet => {
            assert(list_spec()[13] == t);
        },
        LanguageType::Autoconf => {
            assert(list_spec()[14] == t);
        },
        LanguageType::AutoHotKey => {
            assert(list_spec()[15] == t);
        },
        LanguageType::Automake => {
            assert(list_spec()[16] == t);
        },
        LanguageType::Sh => {
            assert(list_spec()[17] == t);
        },
        LanguageType::Bash => {
            assert(list_spec()[18] == t);
        },
        LanguageType::BrightScript => {
            assert(list_spec()[19] == t);
        },
        LanguageType::Elvish => {
            assert(list_spec()[20] == t);
        },
        LanguageType::Fish => {
            assert(list_spec()[21] == t);
        },
        LanguageType::Batch => {
            assert(list_spec()[22] == t);
        },
        LanguageType::Bean => {
            assert(list_spec()[23] == t);
        },
        LanguageType::C => {
            assert(list_spec()[24] == t);
        },
        LanguageType::Cabal => {
            assert(list_spec()[25] == t);
        },
        LanguageType::Cassius => {
            assert(list_spec()[26] == t);
        },
        LanguageType::Ceylon => {
            assert(list_spec()[27] == t);
        },
        LanguageType::CHeader => {
            assert(list_spec()[28] == t);
        },
        LanguageType::Clojure => {
            assert(list_spec()[29] == t);
        },
        LanguageType::ClojureScript => {
            assert(list_spec()[30] == t);
        },
        LanguageType::ClojureC => {
            assert(list_spec()[31] == t);
        },
        LanguageType::CMake => {
            assert(list_spec()[32] == t);
        },
        LanguageType::Cobol => {
            assert(list_spec()[33] == t);
        },
        LanguageType::CodeQL => {
            assert(list_spec()[34] == t);
        },
        LanguageType::CoffeeScript => {
            assert(list_spec()[35] == t);
        },
        LanguageType::Cogent => {
            assert(list_spec()[36] == t);
        },
        LanguageType::ColdFusion => {
            assert(list_spec()[37] == t);
        },
        LanguageType::ColdFusionScript => {
            assert(list_spec()[38] == t);
        },
        LanguageType::Coq => {
            assert(list_spec()[39] == t);
        },
        LanguageType::Cpp => {
            assert(list_spec()[40] == t);
        },
        LanguageType::CppHeader => {
            assert(list_spec()[41] == t);
        },
        LanguageType::Crystal => {
            assert(list_spec()[42] == t);
        },
        LanguageType::CSharp => {
            assert(list_spec()[43] == t);
        },
        LanguageType::CShell => {
            assert(list_spec()[44] == t);
        },
        LanguageType::Css => {
            assert(list_spec()[45] == t);
        },
        LanguageType::D => {
            assert(list_spec()[46] == t);
        },
        LanguageType::Daml => {
            assert(list_spec()[47] == t);
        },
        LanguageType::Dart => {
            assert(list_spec()[48] == t);
        },
        LanguageType::DeviceTree => {
            assert(list_spec()[49] == t);
        },
        LanguageType::Dhall => {
            assert(list_spec()[50] == t);
        },
        LanguageType::DreamMaker => {
            assert(list_spec()[51] == t);
        },
        LanguageType::Dockerfile => {
            assert(list_spec()[52] == t);
        },
        LanguageType::DotNetResource => {
            assert(list_spec()[53] == t);
        },
        LanguageType::Dust => {
            assert(list_spec()[54] == t);
        },
        LanguageType::Edn => {
            assert(list_spec()[55] == t);
        },
        LanguageType::Elisp => {
            assert(list_spec()[56] == t);
        },
        LanguageType::Elixir => {
            assert(list_spec()[57] == t);
        },
        LanguageType::Elm => {
            assert(list_spec()[58] == t);
        },
        LanguageType::EmacsDevEnv => {
            assert(list_spec()[59] == t);
        },
        LanguageType::Emojicode => {
            assert(list_spec()[60] == t);
        },
        LanguageType::Erlang => {
            assert(list_spec()[61] == t);
        },
        LanguageType::FEN => {
            assert(list_spec()[62] == t);
        },
        LanguageType::FlatBuffers => {
            assert(list_spec()[63] == t);
        },
        LanguageType::Fstar => {
            assert(list_spec()[64] == t);
        },
        LanguageType::Forth => {
            assert(list_spec()[65] == t);
        },
        LanguageType::FortranLegacy => {
            assert(list_spec()[66] == t);
        },
        LanguageType::FortranModern => {
            assert(list_spec()[67] == t);
        },
        LanguageType::FreeMarker => {
            assert(list_spec()[68] == t);
        },
        LanguageType::FSharp => {
            assert(list_spec()[69] == t);
        },
        LanguageType::Futhark => {
            assert(list_spec()[70] == t);
        },
        LanguageType::GDB => {
            assert(list_spec()[71] == t);
        },
        LanguageType::GdScript => {
            assert(list_spec()[72] == t);
        },
        LanguageType::Gherkin => {
            assert(list_spec()[73] == t);
        },
        LanguageType::Gleam => {
            assert(list_spec()[74] == t);
        },
        LanguageType::Glsl => {
            assert(list_spec()[75] == t);
        },
        LanguageType::Go => {
            assert(list_spec()[76] == t);
        },
        LanguageType::Gohtml => {
            assert(list_spec()[77] == t);
        },
        LanguageType::Graphql => {
            assert(list_spec()[78] == t);
        },
        LanguageType::Groovy => {
            assert(list_spec()[79] == t);
        },
        LanguageType::Gwion => {
            assert(list_spec()[80] == t);
        },
        LanguageType::Happy => {
            assert(list_spec()[81] == t);
        },
        LanguageType::Handlebars => {
            assert(list_spec()[82] == t);
        },
        LanguageType::Haskell => {
            assert(list_spec()[83] == t);
        },
        LanguageType::Hcl => {
            assert(list_spec()[84] == t);
        },
        LanguageType::Headache => {
            assert(list_spec()[85] == t);
        },
        LanguageType::Hlsl => {
            assert(list_spec()[86] == t);
        },
        LanguageType::HolyC => {
            assert(list_spec()[87] == t);
        },
        LanguageType::Html => {
            assert(list_spec()[88] == t);
        },
        LanguageType::Hamlet => {
            assert(list_spec()[89] == t);
        },
        LanguageType::Haxe => {
            assert(list_spec()[90] == t);
        },
        LanguageType::Hex => {
            assert(list_spec()[91] == t);
        },
        LanguageType::Idris => {
            assert(list_spec()[92] == t);
        },
        LanguageType::Ini => {
            assert(list_spec()[93] == t);
        },
        LanguageType::IntelHex => {
            assert(list_spec()[94] == t);
        },
        LanguageType::Isabelle => {
            assert(list_spec()[95] == t);
        },
        LanguageType::Jai => {
            assert(list_spec()[96] == t);
        },
        LanguageType::Java => {
            assert(list_spec()[97] == t);
        },
        LanguageType::JavaScript => {
            assert(list_spec()[98] == t);
        },
        LanguageType::Json => {
            assert(list_spec()[99] == t);
        },
        LanguageType::Jsonnet => {
            assert(list_spec()[100] == t);
        },
        LanguageType::Jsx => {
            assert(list_spec()[101] == t);
        },
        LanguageType::Julia => {
            assert(list_spec()[102] == t);
        },
        LanguageType::Julius => {
            assert(list_spec()[103] == t);
        },
        LanguageType::Jupyter => {
            assert(list_spec()[104] == t);
        },
        LanguageType::K => {
            assert(list_spec()[105] == t);
        },
        LanguageType::KakouneScript => {
            assert(list_spec()[106] == t);
        },
        LanguageType::Kotlin => {
            assert(list_spec()[107] == t);
        },
        LanguageType::Lean => {
            assert(list_spec()[108] == t);
        },
        LanguageType::Less => {
            assert(list_spec()[109] == t);
        },
        LanguageType::Liquid => {
            assert(list_spec()[110] == t);
        },
        LanguageType::LinkerScript => {
            assert(list_spec()[111] == t);
        },
        LanguageType::Lisp => {
            assert(list_spec()[112] == t);
        },
        LanguageType::LiveScript => {
            assert(list_spec()[113] == t);
        },
        LanguageType::LLVM => {
            assert(list_spec()[114] == t);
        },
        LanguageType::Logtalk => {
            assert(list_spec()[115] == t);
        },
        LanguageType::Lua => {
            assert(list_spec()[116] == t);
        },
        LanguageType::Lucius => {
            assert(list_spec()[117] == t);
        },
        LanguageType::Madlang => {
            assert(list_spec()[118] == t);
        },
        LanguageType::Makefile => {
            assert(list_spec()[119] == t);
        },
        LanguageType::Markdown => {
            assert(list_spec()[120] == t);
        },
        LanguageType::ModuleDef => {
            assert(list_spec()[121] == t);
        },
        LanguageType::MoonScript => {
            assert(list_spec()[122] == t);
        },
        LanguageType::Meson => {
            assert(list_spec()[123] == t);
        },
        LanguageType::Mint => {
            assert(list_spec()[124] == t);
        },
        LanguageType::Mustache => {
            assert(list_spec()[125] == t);
        },
        LanguageType::Nim => {
            assert(list_spec()[126] == t);
        },
        LanguageType::Nix => {
            assert(list_spec()[127] == t);
        },
        LanguageType::ObjectiveC => {
            assert(list_spec()[128] == t);
        },
        LanguageType::ObjectiveCpp => {
            assert(list_spec()[129] == t);
        },
        LanguageType::OCaml => {
            assert(list_spec()[130] == t);
        },
        LanguageType::Odin => {
            assert(list_spec()[131] == t);
        },
        LanguageType::OpenType => {
            assert(list_spec()[132] == t);
        },
        LanguageType::Org => {
            assert(list_spec()[133] == t);
        },
        LanguageType::Oz => {
            assert(list_spec()[134] == t);
        },
        LanguageType::Pan => {
            assert(list_spec()[135] == t);
        },
        LanguageType::Pascal => {
            assert(list_spec()[136] == t);
        },
        LanguageType::Perl => {
            assert(list_spec()[137] == t);
        },
        LanguageType::Perl6 => {
            assert(list_spec()[138] == t);
        },
        LanguageType::Pest => {
            assert(list_spec()[139] == t);
        },
        LanguageType::NotQuitePerl => {
            assert(list_spec()[140] == t);
        },
        LanguageType::Php => {
            assert(list_spec()[141] == t);
        },
        LanguageType::Polly => {
            assert(list_spec()[142] == t);
        },
        LanguageType::Pony => {
            assert(list_spec()[143] == t);
        },
        LanguageType::PostCss => {
            assert(list_spec()[144] == t);
        },
        LanguageType::Processing => {
            assert(list_spec()[145] == t);
        },
        LanguageType::Prolog => {
            assert(list_spec()[146] == t);
        },
        LanguageType::PowerShell => {
            assert(list_spec()[147] == t);
        },
        LanguageType::PSL => {
            assert(list_spec()[148] == t);
        },
        LanguageType::Protobuf => {
            assert(list_spec()[149] == t);
        },
        LanguageType::Pug => {
            assert(list_spec()[150] == t);
        },
        LanguageType::PureScript => {
            assert(list_spec()[151] == t);
        },
        LanguageType::Python => {
            assert(list_spec()[152] == t);
        },
        LanguageType::Qcl => {
            assert(list_spec()[153] == t);
        },
        LanguageType::Q => {
            assert(list_spec()[154] == t);
        },
        LanguageType::Qml => {
            assert(list_spec()[155] == t);
        },
        LanguageType::R => {
            assert(list_spec()[156] == t);
        },
        LanguageType::Racket => {
            assert(list_spec()[157] == t);
        },
        LanguageType::Rakefile => {
            assert(list_spec()[158] == t);
        },
        LanguageType::Razor => {
            assert(list_spec()[159] == t);
        },
        LanguageType::Renpy => {
            assert(list_spec()[160] == t);
        },
        LanguageType::RON => {
            assert(list_spec()[161] == t);
        },
        LanguageType::RPMSpecfile => {
            assert(list_spec()[162] == t);
        },
        LanguageType::Ruby => {
            assert(list_spec()[163] == t);
        },
        LanguageType::RubyHtml => {
            assert(list_spec()[164] == t);
        },
        LanguageType::Rust => {
            assert(list_spec()[165] == t);
        },
        LanguageType::ReStructuredText => {
            assert(list_spec()[166] == t);
        },
        LanguageType::Sass => {
            assert(list_spec()[167] == t);
        },
        LanguageType::Scala => {
            assert(list_spec()[168] == t);
        },
        LanguageType::Scheme => {
            assert(list_spec()[169] == t);
        },
        LanguageType::Scons => {
            assert(list_spec()[170] == t);
        },
        LanguageType::Sml => {
            assert(list_spec()[171] == t);
        },
        LanguageType::Solidity => {
            assert(list_spec()[172] == t);
        },
        LanguageType::SpecmanE => {
            assert(list_spec()[173] == t);
        },
        LanguageType::Spice => {
            assert(list_spec()[174] == t);
        },
        LanguageType::Sql => {
            assert(list_spec()[175] == t);
        },
        LanguageType::SRecode => {
            assert(list_spec()[176] == t);
        },
        LanguageType::Stan => {
            assert(list_spec()[177] == t);
        },
        LanguageType::Stratego => {
            assert(list_spec()[178] == t);
        },
        LanguageType::Stylus => {
            assert(list_spec()[179] == t);
        },
        LanguageType::Svelte => {
            assert(list_spec()[180] == t);
        },
        LanguageType::Svg => {
            assert(list_spec()[181] == t);
        },
        LanguageType::Swift => {
            assert(list_spec()[182] == t);
        },
        LanguageType::Swig => {
            assert(list_spec()[183] == t);
        },
        LanguageType::SystemVerilog => {
            assert(list_spec()[184] == t);
        },
        LanguageType::Tcl => {
            assert(list_spec()[185] == t);
        },
        LanguageType::Tera => {
            assert(list_spec()[186] == t);
        },
        LanguageType::Tex => {
            assert(list_spec()[187] == t);
        },
        LanguageType::Text => {
            assert(list_spec()[188] == t);
        },
        LanguageType::Thrift => {
            assert(list_spec()[189] == t);
        },
        LanguageType::Toml => {
            assert(list_spec()[190] == t);
        },
        LanguageType::Tsx => {
            assert(list_spec()[191] == t);
        },
        LanguageType::Ttcn => {
            assert(list_spec()[192] == t);
        },
        LanguageType::Twig => {
            assert(list_spec()[193] == t);
        },
        LanguageType::TypeScript => {
            assert(list_spec()[194] == t);
        },
        LanguageType::UnrealPlugin => {
            assert(list_spec()[195] == t);
        },
        LanguageType::UnrealProject => {
            assert(list_spec()[196] == t);
        },
        LanguageType::UnrealScript => {
            assert(list_spec()[197] == t);
        },
        LanguageType::UnrealShader => {
            assert(list_spec()[198] == t);
        },
        LanguageType::UnrealShaderHeader => {
            assert(list_spec()[199] == t);
        },
        LanguageType::UnrealDeveloperMarkdown => {
            assert(list_spec()[200] == t);
        },
        LanguageType::UrWeb => {
            assert(list_spec()[201] == t);
        },
        LanguageType::UrWebProject => {
            assert(list_spec()[202] == t);
        },
        LanguageType::Vala => {
            assert(list_spec()[203] == t);
        },
        LanguageType::VB6 => {
            assert(list_spec()[204] == t);
        },
        LanguageType::VBScript => {
            assert(list_spec()[205] == t);
        },
        LanguageType::Velocity => {
            assert(list_spec()[206] == t);
        },
        LanguageType::Verilog => {
            assert(list_spec()[207] == t);
        },
        LanguageType::VerilogArgsFile => {
            assert(list_spec()[208] == t);
        },
        LanguageType::Vhdl => {
            assert(list_spec()[209] == t);
        },
        LanguageType::VisualBasic => {
            assert(list_spec()[210] == t);
        },
        LanguageType::VisualStudioSolution => {
            assert(list_spec()[211] == t);
        },
        LanguageType::VisualStudioProject => {
            assert(list_spec()[212] == t);
        },
        LanguageType::VimScript => {
            assert(list_spec()[213] == t);
        },
        LanguageType::Vue => {
            assert(list_spec()[214] == t);
        },
        LanguageType::WebAssembly => {
            assert(list_spec()[215] == t);
        },
        LanguageType::Wolfram => {
            assert(list_spec()[216] == t);
        },
        LanguageType::Xaml => {
            assert(list_spec()[217] == t);
        },
        LanguageType::XcodeConfig => {
            assert(list_spec()[218] == t);
        },
        LanguageType::Xml => {
            assert(list_spec()[219] == t);
        },
        LanguageType::XSL => {
            assert(list_spec()[220] == t);
        },
        LanguageType::MsBuild => {
            assert(list_spec()[221] == t);
        },
        LanguageType::Xtend => {
            assert(list_spec()[222] == t);
        },
        LanguageType::Yaml => {
            assert(list_spec()[223] == t);
        },
        LanguageType::Zig => {
            assert(list_spec()[224] == t);
        },
        LanguageType::Zsh => {
            assert(list_spec()[225] == t);
        },
    }
}

/// The position of a language in the registry's listing order.
pub open spec fn lang_pos(t: LanguageType) -> int {
    match t {
        LanguageType::Abap => 0,
        LanguageType::ABNF => 1,
        LanguageType::ActionScript => 2,
        LanguageType::Ada => 3,
        LanguageType::Alex => 4,
        LanguageType::Agda => 5,
        LanguageType::Alloy => 6,
        LanguageType::Arduino => 7,
        LanguageType::AsciiDoc => 8,
        LanguageType::Asn1 => 9,
        LanguageType::Assembly => 10,
        LanguageType::AssemblyGAS => 11,
        LanguageType::Asp => 12,
        LanguageType::AspNet => 13,
        LanguageType::Autoconf => 14,
        LanguageType::AutoHotKey => 15,
        LanguageType::Automake => 16,
        LanguageType::Sh => 17,
        LanguageType::Bash => 18,
        LanguageType::BrightScript => 19,
        LanguageType::Elvish => 20,
        LanguageType::Fish => 21,
        LanguageType::Batch => 22,
        LanguageType::Bean => 23,
        LanguageType::C => 24,
        LanguageType::Cabal => 25,
        LanguageType::Cassius => 26,
        LanguageType::Ceylon => 27,
        LanguageType::CHeader => 28,
        LanguageType::Clojure => 29,
        LanguageType::ClojureScript => 30,
        LanguageType::ClojureC => 31,
        LanguageType::CMake => 32,
        LanguageType::Cobol => 33,
        LanguageType::CodeQL => 34,
        LanguageType::CoffeeScript => 35,
        LanguageType::Cogent => 36,
        LanguageType::ColdFusion => 37,
        LanguageType::ColdFusionScript => 38,
        LanguageType::Coq => 39,
        LanguageType::Cpp => 40,
        LanguageType::CppHeader => 41,
        LanguageType::Crystal => 42,
        LanguageType::CSharp => 43,
        LanguageType::CShell => 44,
        LanguageType::Css => 45,
        LanguageType::D => 46,
        LanguageType::Daml => 47,
        LanguageType::Dart => 48,
        LanguageType::DeviceTree => 49,
        LanguageType::Dhall => 50,
        LanguageType::DreamMaker => 51,
        LanguageType::Dockerfile => 52,
        LanguageType::DotNetResource => 53,
        LanguageType::Dust => 54,
        LanguageType::Edn => 55,
        LanguageType::Elisp => 56,
        LanguageType::Elixir => 57,
        LanguageType::Elm => 58,
        LanguageType::EmacsDevEnv => 59,
        LanguageType::Emojicode => 60,
        LanguageType::Erlang => 61,
        LanguageType::FEN => 62,
        LanguageType::FlatBuffers => 63,
        LanguageType::Fstar => 64,
        LanguageType::Forth => 65,
        LanguageType::FortranLegacy => 66,
        LanguageType::FortranModern => 67,
        LanguageType::FreeMarker => 68,
        LanguageType::FSharp => 69,
        LanguageType::Futhark => 70,
        LanguageType::GDB => 71,
        LanguageType::GdScript => 72,
        LanguageType::Gherkin => 73,
        LanguageType::Gleam => 74,
        LanguageType::Glsl => 75,
        LanguageType::Go => 76,
        LanguageType::Gohtml => 77,
        LanguageType::Graphql => 78,
        LanguageType::Groovy => 79,
        LanguageType::Gwion => 80,
        LanguageType::Happy => 81,
        LanguageType::Handlebars => 82,
        LanguageType::Haskell => 83,
        LanguageType::Hcl => 84,
        LanguageType::Headache => 85,
        LanguageType::Hlsl => 86,
        LanguageType::HolyC => 87,
        LanguageType::Html => 88,
        LanguageType::Hamlet => 89,
        LanguageType::Haxe => 90,
        LanguageType::Hex => 91,
        LanguageType::Idris => 92,
        LanguageType::Ini => 93,
        LanguageType::IntelHex => 94,
        LanguageType::Isabelle => 95,
        LanguageType::Jai => 96,
        LanguageType::Java => 97,
        LanguageType::JavaScript => 98,
        LanguageType::Json => 99,
        LanguageType::Jsonnet => 100,
        LanguageType::Jsx => 101,
        LanguageType::Julia => 102,
        LanguageType::Julius => 103,
        LanguageType::Jupyter => 104,
        LanguageType::K => 105,
        LanguageType::KakouneScript => 106,
        LanguageType::Kotlin => 107,
        LanguageType::Lean => 108,
        LanguageType::Less => 109,
        LanguageType::Liquid => 110,
        LanguageType::LinkerScript => 111,
        LanguageType::Lisp => 112,
        LanguageType::LiveScript => 113,
        LanguageType::LLVM => 114,
        LanguageType::Logtalk => 115,
        LanguageType::Lua => 116,
        LanguageType::Lucius => 117,
        LanguageType::Madlang => 118,
        LanguageType::Makefile => 119,
        LanguageType::Markdown => 120,
        LanguageType::ModuleDef => 121,
        LanguageType::MoonScript => 122,
        LanguageType::Meson => 123,
        LanguageType::Mint => 124,
        LanguageType::Mustache => 125,
        LanguageType::Nim => 126,
        LanguageType::Nix => 127,
        LanguageType::ObjectiveC => 128,
        LanguageType::ObjectiveCpp => 129,
        LanguageType::OCaml => 130,
        LanguageType::Odin => 131,
        LanguageType::OpenType => 132,
        LanguageType::Org => 133,
        LanguageType::Oz => 134,
        LanguageType::Pan => 135,
        LanguageType::Pascal => 136,
        LanguageType::Perl => 137,
        LanguageType::Perl6 => 138,
        LanguageType::Pest => 139,
        LanguageType::NotQuitePerl => 140,
        LanguageType::Php => 141,
        LanguageType::Polly => 142,
        LanguageType::Pony => 143,
        LanguageType::PostCss => 144,
        LanguageType::Processing => 145,
        LanguageType::Prolog => 146,
        LanguageType::PowerShell => 147,
        LanguageType::PSL => 148,
        LanguageType::Protobuf => 149,
        LanguageType::Pug => 150,
        LanguageType::PureScript => 151,
        LanguageType::Python => 152,
        LanguageType::Qcl => 153,
        LanguageType::Q => 154,
        LanguageType::Qml => 155,
        LanguageType::R => 156,
        LanguageType::Racket => 157,
        LanguageType::Rakefile => 158,
        LanguageType::Razor => 159,
        LanguageType::Renpy => 160,
        LanguageType::RON => 161,
        LanguageType::RPMSpecfile => 162,
        LanguageType::Ruby => 163,
        LanguageType::RubyHtml => 164,
        LanguageType::Rust => 165,
        LanguageType::ReStructuredText => 166,
        LanguageType::Sass => 167,
        LanguageType::Scala => 168,
        LanguageType::Scheme => 169,
        LanguageType::Scons => 170,
        LanguageType::Sml => 171,
        LanguageType::Solidity => 172,
        LanguageType::SpecmanE => 173,
        LanguageType::Spice => 174,
        LanguageType::Sql => 175,
        LanguageType::SRecode => 176,
        LanguageType::Stan => 177,
        LanguageType::Stratego => 178,
        LanguageType::Stylus => 179,
        LanguageType::Svelte => 180,
        LanguageType::Svg => 181,
        LanguageType::Swift => 182,
        LanguageType::Swig => 183,
        LanguageType::SystemVerilog => 184,
        LanguageType::Tcl => 185,
        LanguageType::Tera => 186,
        LanguageType::Tex => 187,
        LanguageType::Text => 188,
        LanguageType::Thrift => 189,
        LanguageType::Toml => 190,
        LanguageType::Tsx => 191,
        LanguageType::Ttcn => 192,
        LanguageType::Twig => 193,
        LanguageType::TypeScript => 194,
        LanguageType::UnrealPlugin => 195,
        LanguageType::UnrealProject => 196,
        LanguageType::UnrealScript => 197,
        LanguageType::UnrealShader => 198,
        LanguageType::UnrealShaderHeader => 199,
        LanguageType::UnrealDeveloperMarkdown => 200,
        LanguageType::UrWeb => 201,
        LanguageType::UrWebProject => 202,
        LanguageType::Vala => 203,
        LanguageType::VB6 => 204,
        LanguageType::VBScript => 205,
        LanguageType::Velocity => 206,
        LanguageType::Verilog => 207,
        LanguageType::VerilogArgsFile => 208,
        LanguageType::Vhdl => 209,
        LanguageType::VisualBasic => 210,
        LanguageType::VisualStudioSolution => 211,
        LanguageType::VisualStudioProject => 212,
        LanguageType::VimScript => 213,
        LanguageType::Vue => 214,
        LanguageType::WebAssembly => 215,
        LanguageType::Wolfram => 216,
        LanguageType::Xaml => 217,
        LanguageType::XcodeConfig => 218,
        LanguageType::Xml => 219,
        LanguageType::XSL => 220,
        LanguageType::MsBuild => 221,
        LanguageType::Xtend => 222,
        LanguageType::Yaml => 223,
        LanguageType::Zig => 224,
        LanguageType::Zsh => 225,
    }
}

/// `lang_pos` inverts `lang_at`: every listing position holds the
/// language whose position it is, so no language is listed twice.
pub proof fn lemma_lang_at_pos(t: LanguageType)
    ensures
        0 <= lang_pos(t) < 226,
        lang_at(lang_pos(t)) == t,
{
    match t {
        LanguageType::Abap => {
            assert(lang_at(0) == LanguageType::Abap);
        },
        LanguageType::ABNF => {
            assert(lang_at(1) == LanguageType::ABNF);
        },
        LanguageType::ActionScript => {
            assert(lang_at(2) == LanguageType::ActionScript);
        },
        LanguageType::Ada => {
            assert(lang_at(3) == LanguageType::Ada);
        },
        LanguageType::Alex => {
            assert(lang_at(4) == LanguageType::Alex);
        },
        LanguageType::Agda => {
            assert(lang_at(5) == LanguageType::Agda);
        },
        LanguageType::Alloy => {
            assert(lang_at(6) == LanguageType::Alloy);
        },
        LanguageType::Arduino => {
            assert(lang_at(7) == LanguageType::Arduino);
        },
        LanguageType::AsciiDoc => {
            assert(lang_at(8) == LanguageType::AsciiDoc);
        },
        LanguageType::Asn1 => {
            assert(lang_at(9) == LanguageType::Asn1);
        },
        LanguageType::Assembly => {
            assert(lang_at(10) == LanguageType::Assembly);
        },
        LanguageType::AssemblyGAS => {
            assert(lang_at(11) == LanguageType::AssemblyGAS);
        },
        LanguageType::Asp => {
            assert(lang_at(12) == LanguageType::Asp);
        },
        LanguageType::AspNet => {
            assert(lang_at(13) == LanguageType::AspNet);
        },
        LanguageType::Autoconf => {
            assert(lang_at(14) == LanguageType::Autoconf);
        },
        LanguageType::AutoHotKey => {
            assert(lang_at(15) == LanguageType::AutoHotKey);
        },
        LanguageType::Automake => {
            assert(lang_at(16) == LanguageType::Automake);
        },
        LanguageType::Sh => {
            assert(lang_at(17) == LanguageType::Sh);
        },
        LanguageType::Bash => {
            assert(lang_at(18) == LanguageType::Bash);
        },
        LanguageType::BrightScript => {
            assert(lang_at(19) == LanguageType::BrightScript);
        },
        LanguageType::Elvish => {
            assert(lang_at(20) == LanguageType::Elvish);
        },
        LanguageType::Fish => {
            assert(lang_at(21) == LanguageType::Fish);
        },
        LanguageType::Batch => {
            assert(lang_at(22) == LanguageType::Batch);
        },
        LanguageType::Bean => {
            assert(lang_at(23) == LanguageType::Bean);
        },
        LanguageType::C => {
            assert(lang_at(24) == LanguageType::C);
        },
        LanguageType::Cabal => {
            assert(lang_at(25) == LanguageType::Cabal);
        },
        LanguageType::Cassius => {
            assert(lang_at(26) == LanguageType::Cassius);
        },
        LanguageType::Ceylon => {
            assert(lang_at(27) == LanguageType::Ceylon);
        },
        LanguageType::CHeader => {
            assert(lang_at(28) == LanguageType::CHeader);
        },
        LanguageType::Clojure => {
            assert(lang_at(29) == LanguageType::Clojure);
        },
        LanguageType::ClojureScript => {
            assert(lang_at(30) == LanguageType::ClojureScript);
        },
        LanguageType::ClojureC => {
            assert(lang_at(31) == LanguageType::ClojureC);
        },
        LanguageType::CMake => {
            assert(lang_at(32) == LanguageType::CMake);
        },
        LanguageType::Cobol => {
            assert(lang_at(33) == LanguageType::Cobol);
        },
        LanguageType::CodeQL => {
            assert(lang_at(34) == LanguageType::CodeQL);
        },
        LanguageType::CoffeeScript => {
            assert(lang_at(35) == LanguageType::CoffeeScript);
        },
        LanguageType::Cogent => {
            assert(lang_at(36) == LanguageType::Cogent);
        },
        LanguageType::ColdFusion => {
            assert(lang_at(37) == LanguageType::ColdFusion);
        },
        LanguageType::ColdFusionScript => {
            assert(lang_at(38) == LanguageType::ColdFusionScript);
        },
        LanguageType::Coq => {
            assert(lang_at(39) == LanguageType::Coq);
        },
        LanguageType::Cpp => {
            assert(lang_at(40) == LanguageType::Cpp);
        },
        LanguageType::CppHeader => {
            assert(lang_at(41) == LanguageType::CppHeader);
        },
        LanguageType::Crystal => {
            assert(lang_at(42) == LanguageType::Crystal);
        },
        LanguageType::CSharp => {
            assert(lang_at(43) == LanguageType::CSharp);
        },
        LanguageType::CShell => {
            assert(lang_at(44) == LanguageType::CShell);
        },
        LanguageType::Css => {
            assert(lang_at(45) == LanguageType::Css);
        },
        LanguageType::D => {
            assert(lang_at(46) == LanguageType::D);
        },
        LanguageType::Daml => {
            assert(lang_at(47) == LanguageType::Daml);
        },
        LanguageType::Dart => {
            assert(lang_at(48) == LanguageType::Dart);
        },
        LanguageType::DeviceTree => {
            assert(lang_at(49) == LanguageType::DeviceTree);
        },
        LanguageType::Dhall => {
            assert(lang_at(50) == LanguageType::Dhall);
        },
        LanguageType::DreamMaker => {
            assert(lang_at(51) == LanguageType::DreamMaker);
        },
        LanguageType::Dockerfile => {
            assert(lang_at(52) == LanguageType::Dockerfile);
        },
        LanguageType::DotNetResource => {
            assert(lang_at(53) == LanguageType::DotNetResource);
        },
        LanguageType::Dust => {
            assert(lang_at(54) == LanguageType::Dust);
        },
        LanguageType::Edn => {
            assert(lang_at(55) == LanguageType::Edn);
        },
        LanguageType::Elisp => {
            assert(lang_at(56) == LanguageType::Elisp);
        },
        LanguageType::Elixir => {
            assert(lang_at(57) == LanguageType::Elixir);
        },
        LanguageType::Elm => {
            assert(lang_at(58) == LanguageType::Elm);
        },
        LanguageType::EmacsDevEnv => {
            assert(lang_at(59) == LanguageType::EmacsDevEnv);
        },
        LanguageType::Emojicode => {
            assert(lang_at(60) == LanguageType::Emojicode);
        },
        LanguageType::Erlang => {
            assert(lang_at(61) == LanguageType::Erlang);
        },
        LanguageType::FEN => {
            assert(lang_at(62) == LanguageType::FEN);
        },
        LanguageType::FlatBuffers => {
            assert(lang_at(63) == LanguageType::FlatBuffers);
        },
        LanguageType::Fstar => {
            assert(lang_at(64) == LanguageType::Fstar);
        },
        LanguageType::Forth => {
            assert(lang_at(65) == LanguageType::Forth);
        },
        LanguageType::FortranLegacy => {
            assert(lang_at(66) == LanguageType::FortranLegacy);
        },
        LanguageType::FortranModern => {
            assert(lang_at(67) == LanguageType::FortranModern);
        },
        LanguageType::FreeMarker => {
            assert(lang_at(68) == LanguageType::FreeMarker);
        },
        LanguageType::FSharp => {
            assert(lang_at(69) == LanguageType::FSharp);
        },
        LanguageType::Futhark => {
            assert(lang_at(70) == LanguageType::Futhark);
        },
        LanguageType::GDB => {
            assert(lang_at(71) == LanguageType::GDB);
        },
        LanguageType::GdScript => {
            assert(lang_at(72) == LanguageType::GdScript);
        },
        LanguageType::Gherkin => {
            assert(lang_at(73) == LanguageType::Gherkin);
        },
        LanguageType::Gleam => {
            assert(lang_at(74) == LanguageType::Gleam);
        },
        LanguageType::Glsl => {
            assert(lang_at(75) == LanguageType::Glsl);
        },
        LanguageType::Go => {
            assert(lang_at(76) == LanguageType::Go);
        },
        LanguageType::Gohtml => {
            assert(lang_at(77) == LanguageType::Gohtml);
        },
        LanguageType::Graphql => {
            assert(lang_at(78) == LanguageType::Graphql);
        },
        LanguageType::Groovy => {
            assert(lang_at(79) == LanguageType::Groovy);
        },
        LanguageType::Gwion => {
            assert(lang_at(80) == LanguageType::Gwion);
        },
        LanguageType::Happy => {
            assert(lang_at(81) == LanguageType::Happy);
        },
        LanguageType::Handlebars => {
            assert(lang_at(82) == LanguageType::Handlebars);
        },
        LanguageType::Haskell => {
            assert(lang_at(83) == LanguageType::Haskell);
        },
        LanguageType::Hcl => {
            assert(lang_at(84) == LanguageType::Hcl);
        },
        LanguageType::Headache => {
            assert(lang_at(85) == LanguageType::Headache);
        },
        LanguageType::Hlsl => {
            assert(lang_at(86) == LanguageType::Hlsl);
        },
        LanguageType::HolyC => {
            assert(lang_at(87) == LanguageType::HolyC);
        },
        LanguageType::Html => {
            assert(lang_at(88) == LanguageType::Html);
        },
        LanguageType::Hamlet => {
            assert(lang_at(89) == LanguageType::Hamlet);
        },
        LanguageType::Haxe => {
            assert(lang_at(90) == LanguageType::Haxe);
        },
        LanguageType::Hex => {
            assert(lang_at(91) == LanguageType::Hex);
        },
        LanguageType::Idris => {
            assert(lang_at(92) == LanguageType::Idris);
        },
        LanguageType::Ini => {
            assert(lang_at(93) == LanguageType::Ini);
        },
        LanguageType::IntelHex => {
            assert(lang_at(94) == LanguageType::IntelHex);
        },
        LanguageType::Isabelle => {
            assert(lang_at(95) == LanguageType::Isabelle);
        },
        LanguageType::Jai => {
            assert(lang_at(96) == LanguageType::Jai);
        },
        LanguageType::Java => {
            assert(lang_at(97) == LanguageType::Java);
        },
        LanguageType::JavaScript => {
            assert(lang_at(98) == LanguageType::JavaScript);
        },
        LanguageType::Json => {
            assert(lang_at(99) == LanguageType::Json);
        },
        LanguageType::Jsonnet => {
            assert(lang_at(100) == LanguageType::Jsonnet);
        },
        LanguageType::Jsx => {
            assert(lang_at(101) == LanguageType::Jsx);
        },
        LanguageType::Julia => {
            assert(lang_at(102) == LanguageType::Julia);
        },
        LanguageType::Julius => {
            assert(lang_at(103) == LanguageType::Julius);
        },
        LanguageType::Jupyter => {
            assert(lang_at(104) == LanguageType::Jupyter);
        },
        LanguageType::K => {
            assert(lang_at(105) == LanguageType::K);
        },
        LanguageType::KakouneScript => {
            assert(lang_at(106) == LanguageType::KakouneScript);
        },
        LanguageType::Kotlin => {
            assert(lang_at(107) == LanguageType::Kotlin);
        },
        LanguageType::Lean => {
            assert(lang_at(108) == LanguageType::Lean);
        },
        LanguageType::Less => {
            assert(lang_at(109) == LanguageType::Less);
        },
        LanguageType::Liquid => {
            assert(lang_at(110) == LanguageType::Liquid);
        },
        LanguageType::LinkerScript => {
            assert(lang_at(111) == LanguageType::LinkerScript);
        },
        LanguageType::Lisp => {
            assert(lang_at(112) == LanguageType::Lisp);
        },
        LanguageType::LiveScript => {
            assert(lang_at(113) == LanguageType::LiveScript);
        },
        LanguageType::LLVM => {
            assert(lang_at(114) == LanguageType::LLVM);
        },
        LanguageType::Logtalk => {
            assert(lang_at(115) == LanguageType::Logtalk);
        },
        LanguageType::Lua => {
            assert(lang_at(116) == LanguageType::Lua);
        },
        LanguageType::Lucius => {
            assert(lang_at(117) == LanguageType::Lucius);
        },
        LanguageType::Madlang => {
            assert(lang_at(118) == LanguageType::Madlang);
        },
        LanguageType::Makefile => {
            assert(lang_at(119) == LanguageType::Makefile);
        },
        LanguageType::Markdown => {
            assert(lang_at(120) == LanguageType::Markdown);
        },
        LanguageType::ModuleDef => {
            assert(lang_at(121) == LanguageType::ModuleDef);
        },
        LanguageType::MoonScript => {
            assert(lang_at(122) == LanguageType::MoonScript);
        },
        LanguageType::Meson => {
            assert(lang_at(123) == LanguageType::Meson);
        },
        LanguageType::Mint => {
            assert(lang_at(124) == LanguageType::Mint);
        },
        LanguageType::Mustache => {
            assert(lang_at(125) == LanguageType::Mustache);
        },
        LanguageType::Nim => {
            assert(lang_at(126) == LanguageType::Nim);
        },
        LanguageType::Nix => {
            assert(lang_at(127) == LanguageType::Nix);
        },
        LanguageType::ObjectiveC => {
            assert(lang_at(128) == LanguageType::ObjectiveC);
        },
        LanguageType::ObjectiveCpp => {
            assert(lang_at(129) == LanguageType::ObjectiveCpp);
        },
        LanguageType::OCaml => {
            assert(lang_at(130) == LanguageType::OCaml);
        },
        LanguageType::Odin => {
            assert(lang_at(131) == LanguageType::Odin);
        },
        LanguageType::OpenType => {
            assert(lang_at(132) == LanguageType::OpenType);
        },
        LanguageType::Org => {
            assert(lang_at(133) == LanguageType::Org);
        },
        LanguageType::Oz => {
            assert(lang_at(134) == LanguageType::Oz);
        },
        LanguageType::Pan => {
            assert(lang_at(135) == LanguageType::Pan);
        },
        LanguageType::Pascal => {
            assert(lang_at(136) == LanguageType::Pascal);
        },
        LanguageType::Perl => {
            assert(lang_at(137) == LanguageType::Perl);
        },
        LanguageType::Perl6 => {
            assert(lang_at(138) == LanguageType::Perl6);
        },
        LanguageType::Pest => {
            assert(lang_at(139) == LanguageType::Pest);
        },
        LanguageType::NotQuitePerl => {
            assert(lang_at(140) == LanguageType::NotQuitePerl);
        },
        LanguageType::Php => {
            assert(lang_at(141) == LanguageType::Php);
        },
        LanguageType::Polly => {
            assert(lang_at(142) == LanguageType::Polly);
        },
        LanguageType::Pony => {
            assert(lang_at(143) == LanguageType::Pony);
        },
        LanguageType::PostCss => {
            assert(lang_at(144) == LanguageType::PostCss);
        },
        LanguageType::Processing => {
            assert(lang_at(145) == LanguageType::Processing);
        },
        LanguageType::Prolog => {
            assert(lang_at(146) == LanguageType::Prolog);
        },
        LanguageType::PowerShell => {
            assert(lang_at(147) == LanguageType::PowerShell);
        },
        LanguageType::PSL => {
            assert(lang_at(148) == LanguageType::PSL);
        },
        LanguageType::Protobuf => {
            assert(lang_at(149) == LanguageType::Protobuf);
        },
        LanguageType::Pug => {
            assert(lang_at(150) == LanguageType::Pug);
        },
        LanguageType::PureScript => {
            assert(lang_at(151) == LanguageType::PureScript);
        },
        LanguageType::Python => {
            assert(lang_at(152) == LanguageType::Python);
        },
        LanguageType::Qcl => {
            assert(lang_at(153) == LanguageType::Qcl);
        },
        LanguageType::Q => {
            assert(lang_at(154) == LanguageType::Q);
        },
        LanguageType::Qml => {
            assert(lang_at(155) == LanguageType::Qml);
        },
        LanguageType::R => {
            assert(lang_at(156) == LanguageType::R);
        },
        LanguageType::Racket => {
            assert(lang_at(157) == LanguageType::Racket);
        },
        LanguageType::Rakefile => {
            assert(lang_at(158) == LanguageType::Rakefile);
        },
        LanguageType::Razor => {
            assert(lang_at(159) == LanguageType::Razor);
        },
        LanguageType::Renpy => {
            assert(lang_at(160) == LanguageType::Renpy);
        },
        LanguageType::RON => {
            assert(lang_at(161) == LanguageType::RON);
        },
        LanguageType::RPMSpecfile => {
            assert(lang_at(162) == LanguageType::RPMSpecfile);
        },
        LanguageType::Ruby => {
            assert(lang_at(163) == LanguageType::Ruby);
        },
        LanguageType::RubyHtml => {
            assert(lang_at(164) == LanguageType::RubyHtml);
        },
        LanguageType::Rust => {
            assert(lang_at(165) == LanguageType::Rust);
        },
        LanguageType::ReStructuredText => {
            assert(lang_at(166) == LanguageType::ReStructuredText);
        },
        LanguageType::Sass => {
            assert(lang_at(167) == LanguageType::Sass);
        },
        LanguageType::Scala => {
            assert(lang_at(168) == LanguageType::Scala);
        },
        LanguageType::Scheme => {
            assert(lang_at(169) == LanguageType::Scheme);
        },
        LanguageType::Scons => {
            assert(lang_at(170) == LanguageType::Scons);
        },
        LanguageType::Sml => {
            assert(lang_at(171) == LanguageType::Sml);
        },
        LanguageType::Solidity => {
            assert(lang_at(172) == LanguageType::Solidity);
        },
        LanguageType::SpecmanE => {
            assert(lang_at(173) == LanguageType::SpecmanE);
        },
        LanguageType::Spice => {
            assert(lang_at(174) == LanguageType::Spice);
        },
        LanguageType::Sql => {
            assert(lang_at(175) == LanguageType::Sql);
        },
        LanguageType::SRecode => {
            assert(lang_at(176) == LanguageType::SRecode);
        },
        LanguageType::Stan => {
            assert(lang_at(177) == LanguageType::Stan);
        },
        LanguageType::Stratego => {
            assert(lang_at(178) == LanguageType::Stratego);
        },
        LanguageType::Stylus => {
            assert(lang_at(179) == LanguageType::Stylus);
        },
        LanguageType::Svelte => {
            assert(lang_at(180) == LanguageType::Svelte);
        },
        LanguageType::Svg => {
            assert(lang_at(181) == LanguageType::Svg);
        },
        LanguageType::Swift => {
            assert(lang_at(182) == LanguageType::Swift);
        },
        LanguageType::Swig => {
            assert(lang_at(183) == LanguageType::Swig);
        },
        LanguageType::SystemVerilog => {
            assert(lang_at(184) == LanguageType::SystemVerilog);
        },
        LanguageType::Tcl => {
            assert(lang_at(185) == LanguageType::Tcl);
        },
        LanguageType::Tera => {
            assert(lang_at(186) == LanguageType::Tera);
        },
        LanguageType::Tex => {
            assert(lang_at(187) == LanguageType::Tex);
        },
        LanguageType::Text => {
            assert(lang_at(188) == LanguageType::Text);
        },
        LanguageType::Thrift => {
            assert(lang_at(189) == LanguageType::Thrift);
        },
        LanguageType::Toml => {
            assert(lang_at(190) == LanguageType::Toml);
        },
        LanguageType::Tsx => {
            assert(lang_at(191) == LanguageType::Tsx);
        },
        LanguageType::Ttcn => {
            assert(lang_at(192) == LanguageType::Ttcn);
        },
        LanguageType::Twig => {
            assert(lang_at(193) == LanguageType::Twig);
        },
        LanguageType::TypeScript => {
            assert(lang_at(194) == LanguageType::TypeScript);
        },
        LanguageType::UnrealPlugin => {
            assert(lang_at(195) == LanguageType::UnrealPlugin);
        },
        LanguageType::UnrealProject => {
            assert(lang_at(196) == LanguageType::UnrealProject);
        },
        LanguageType::UnrealScript => {
            assert(lang_at(197) == LanguageType::UnrealScript);
        },
        LanguageType::UnrealShader => {
            assert(lang_at(198) == LanguageType::UnrealShader);
        },
        LanguageType::UnrealShaderHeader => {
            assert(lang_at(199) == LanguageType::UnrealShaderHeader);
        },
        LanguageType::UnrealDeveloperMarkdown => {
            assert(lang_at(200) == LanguageType::UnrealDeveloperMarkdown);
        },
        LanguageType::UrWeb => {
            assert(lang_at(201) == LanguageType::UrWeb);
        },
        LanguageType::UrWebProject => {
            assert(lang_at(202) == LanguageType::UrWebProject);
        },
        LanguageType::Vala => {
            assert(lang_at(203) == LanguageType::Vala);
        },
        LanguageType::VB6 => {
            assert(lang_at(204) == LanguageType::VB6);
        },
        LanguageType::VBScript => {
            assert(lang_at(205) == LanguageType::VBScript);
        },
        LanguageType::Velocity => {
            assert(lang_at(206) == LanguageType::Velocity);
        },
        LanguageType::Verilog => {
            assert(lang_at(207) == LanguageType::Verilog);
        },
        LanguageType::VerilogArgsFile => {
            assert(lang_at(208) == LanguageType::VerilogArgsFile);
        },
        LanguageType::Vhdl => {
            assert(lang_at(209) == LanguageType::Vhdl);
        },
        LanguageType::VisualBasic => {
            assert(lang_at(210) == LanguageType::VisualBasic);
        },
        LanguageType::VisualStudioSolution => {
            assert(lang_at(211) == LanguageType::VisualStudioSolution);
        },
        LanguageType::VisualStudioProject => {
            assert(lang_at(212) == LanguageType::VisualStudioProject);
        },
        LanguageType::VimScript => {
            assert(lang_at(213) == LanguageType::VimScript);
        },
        LanguageType::Vue => {
            assert(lang_at(214) == LanguageType::Vue);
        },
        LanguageType::WebAssembly => {
            assert(lang_at(215) == LanguageType::WebAssembly);
        },
        LanguageType::Wolfram => {
            assert(lang_at(216) == LanguageType::Wolfram);
        },
        LanguageType::Xaml => {
            assert(lang_at(217) == LanguageType::Xaml);
        },
        LanguageType::XcodeConfig => {
            assert(lang_at(218) == LanguageType::XcodeConfig);
        },
        LanguageType::Xml => {
            assert(lang_at(219) == LanguageType::Xml);
        },
        LanguageType::XSL => {
            assert(lang_at(220) == LanguageType::XSL);
        },
        LanguageType::MsBuild => {
            assert(lang_at(221) == LanguageType::MsBuild);
        },
        LanguageType::Xtend => {
            assert(lang_at(222) == LanguageType::Xtend);
        },
        LanguageType::Yaml => {
            assert(lang_at(223) == LanguageType::Yaml);
        },
        LanguageType::Zig => {
            assert(lang_at(224) == LanguageType::Zig);
        },
        LanguageType::Zsh => {
            assert(lang_at(225) == LanguageType::Zsh);
        },
    }
}

/// No listing position repeats a language.
pub proof fn lemma_list_no_duplicates(i: int, j: int)
    requires
        0 <= i < 226,
        0 <= j < 226,
        lang_at(i) == lang_at(j),
    ensures
        i == j,
{
    assert(forall|k: int| 0 <= k < 226 ==> lang_pos(#[trigger] lang_at(k)) == k);
}

impl LanguageType {
    /// Returns the display name of this language.
    pub fn name(&self) -> (r: &'static str)
        ensures
            r@ == name_spec(*self),
    {
        match self {
            LanguageType::Abap => "ABAP",
            LanguageType::ABNF => "ABNF",
            LanguageType::ActionScript => "ActionScript",
            LanguageType::Ada => "Ada",
            LanguageType::Alex => "Alex",
            LanguageType::Agda => "Agda",
            LanguageType::Alloy => "Alloy",
            LanguageType::Arduino => "Arduino C++",
            LanguageType::AsciiDoc => "AsciiDoc",
            LanguageType::Asn1 => "ASN.1",
            LanguageType::Assembly => "Assembly",
            LanguageType::AssemblyGAS => "GNU Style Assembly",
            LanguageType::Asp => "ASP",
            LanguageType::AspNet => "ASP.NET",
            LanguageType::Autoconf => "Autoconf",
            LanguageType::AutoHotKey => "AutoHotKey",
            LanguageType::Automake => "Automake",
            LanguageType::Sh => "Shell",
            LanguageType::Bash => "BASH",
            LanguageType::BrightScript => "BrightScript",
            LanguageType::Elvish => "Elvish",
            LanguageType::Fish => "Fish",
            LanguageType::Batch => "Batch",
            LanguageType::Bean => "Bean",
            LanguageType::C => "C",
            LanguageType::Cabal => "Cabal",
            LanguageType::Cassius => "Cassius",
            LanguageType::Ceylon => "Ceylon",
            LanguageType::CHeader => "C Header",
            LanguageType::Clojure => "Clojure",
            LanguageType::ClojureScript => "ClojureScript",
            LanguageType::ClojureC => "ClojureC",
            LanguageType::CMake => "CMake",
            LanguageType::Cobol => "COBOL",
            LanguageType::CodeQL => "CodeQL",
            LanguageType::CoffeeScript => "CoffeeScript",
            LanguageType::Cogent => "Cogent",
            LanguageType::ColdFusion => "ColdFusion",
            LanguageType::ColdFusionScript => "ColdFusion CFScript",
            LanguageType::Coq => "Coq",
            LanguageType::Cpp => "C++",
            LanguageType::CppHeader => "C++ Header",
            LanguageType::Crystal => "Crystal",
            LanguageType::CSharp => "C#",
            LanguageType::CShell => "C Shell",
            LanguageType::Css => "CSS",
            LanguageType::D => "D",
            LanguageType::Daml => "DAML",
            LanguageType::Dart => "Dart",
            LanguageType::DeviceTree => "Device Tree",
            LanguageType::Dhall => "Dhall",
            LanguageType::DreamMaker => "Dream Maker",
            LanguageType::Dockerfile => "Dockerfile",
            LanguageType::DotNetResource => ".NET Resource",
            LanguageType::Dust => "Dust.js",
            LanguageType::Edn => "Edn",
            LanguageType::Elisp => "Emacs Lisp",
            LanguageType::Elixir => "Elixir",
            LanguageType::Elm => "Elm",
            LanguageType::EmacsDevEnv => "Emacs Dev Env",
            LanguageType::Emojicode => "Emojicode",
            LanguageType::Erlang => "Erlang",
            LanguageType::FEN => "FEN",
            LanguageType::FlatBuffers => "FlatBuffers Schema",
            LanguageType::Fstar => "F*",
            LanguageType::Forth => "Forth",
            LanguageType::FortranLegacy => "FORTRAN Legacy",
            LanguageType::FortranModern => "FORTRAN Modern",
            LanguageType::FreeMarker => "FreeMarker",
            LanguageType::FSharp => "F#",
            LanguageType::Futhark => "Futhark",
            LanguageType::GDB => "GDB Script",
            LanguageType::GdScript => "GDScript",
            LanguageType::Gherkin => "Gherkin (Cucumber)",
            LanguageType::Gleam => "Gleam",
            LanguageType::Glsl => "GLSL",
            LanguageType::Go => "Go",
            LanguageType::Gohtml => "Go HTML",
            LanguageType::Graphql => "GraphQL",
            LanguageType::Groovy => "Groovy",
            LanguageType::Gwion => "Gwion",
            LanguageType::Happy => "Happy",
            LanguageType::Handlebars => "Handlebars",
            LanguageType::Haskell => "Haskell",
            LanguageType::Hcl => "HCL",
            LanguageType::Headache => "Headache",
            LanguageType::Hlsl => "HLSL",
            LanguageType::HolyC => "HolyC",
            LanguageType::Html => "HTML",
            LanguageType::Hamlet => "Hamlet",
            LanguageType::Haxe => "Haxe",
            LanguageType::Hex => "HEX",
            LanguageType::Idris => "Idris",
            LanguageType::Ini => "INI",
            LanguageType::IntelHex => "Intel HEX",
            LanguageType::Isabelle => "Isabelle",
            LanguageType::Jai => "JAI",
            LanguageType::Java => "Java",
            LanguageType::JavaScript => "JavaScript",
            LanguageType::Json => "JSON",
            LanguageType::Jsonnet => "Jsonnet",
            LanguageType::Jsx => "JSX",
            LanguageType::Julia => "Julia",
            LanguageType::Julius => "Julius",
            LanguageType::Jupyter => "Jupyter Notebooks",
            LanguageType::K => "K",
            LanguageType::KakouneScript => "Kakoune script",
            LanguageType::Kotlin => "Kotlin",
            LanguageType::Lean => "Lean",
            LanguageType::Less => "LESS",
            LanguageType::Liquid => "Liquid",
            LanguageType::LinkerScript => "LD Script",
            LanguageType::Lisp => "Lisp",
            LanguageType::LiveScript => "LiveScript",
            LanguageType::LLVM => "LLVM",
            LanguageType::Logtalk => "Logtalk",
            LanguageType::Lua => "Lua",
            LanguageType::Lucius => "Lucius",
            LanguageType::Madlang => "Madlang",
            LanguageType::Makefile => "Makefile",
            LanguageType::Markdown => "Markdown",
            LanguageType::ModuleDef => "Module-Definition",
            LanguageType::MoonScript => "MoonScript",
            LanguageType::Meson => "Meson",
            LanguageType::Mint => "Mint",
            LanguageType::Mustache => "Mustache",
            LanguageType::Nim => "Nim",
            LanguageType::Nix => "Nix",
            LanguageType::ObjectiveC => "Objective-C",
            LanguageType::ObjectiveCpp => "Objective-C++",
            LanguageType::OCaml => "OCaml",
            LanguageType::Odin => "Odin",
            LanguageType::OpenType => "OpenType Feature File",
            LanguageType::Org => "Org",
            LanguageType::Oz => "Oz",
            LanguageType::Pan => "Pan",
            LanguageType::Pascal => "Pascal",
            LanguageType::Perl => "Perl",
            LanguageType::Perl6 => "Rakudo",
            LanguageType::Pest => "Pest",
            LanguageType::NotQuitePerl => "Not Quite Perl",
            LanguageType::Php => "PHP",
            LanguageType::Polly => "Polly",
            LanguageType::Pony => "Pony",
            LanguageType::PostCss => "PostCSS",
            LanguageType::Processing => "Processing",
            LanguageType::Prolog => "Prolog",
            LanguageType::PowerShell => "PowerShell",
            LanguageType::PSL => "PSL Assertion",
            LanguageType::Protobuf => "Protocol Buffers",
            LanguageType::Pug => "Pug",
            LanguageType::PureScript => "PureScript",
            LanguageType::Python => "Python",
            LanguageType::Qcl => "QCL",
            LanguageType::Q => "Q",
            LanguageType::Qml => "QML",
            LanguageType::R => "R",
            LanguageType::Racket => "Racket",
            LanguageType::Rakefile => "Rakefile",
            LanguageType::Razor => "Razor",
            LanguageType::Renpy => "Ren'Py",
            LanguageType::RON => "Rusty Object Notation",
            LanguageType::RPMSpecfile => "RPM Specfile",
            LanguageType::Ruby => "Ruby",
            LanguageType::RubyHtml => "Ruby HTML",
            LanguageType::Rust => "Rust",
            LanguageType::ReStructuredText => "ReStructuredText",
            LanguageType::Sass => "Sass",
            LanguageType::Scala => "Scala",
            LanguageType::Scheme => "Scheme",
            LanguageType::Scons => "Scons",
            LanguageType::Sml => "Standard ML (SML)",
            LanguageType::Solidity => "Solidity",
            LanguageType::SpecmanE => "Specman e",
            LanguageType::Spice => "Spice Netlist",
            LanguageType::Sql => "SQL",
            LanguageType::SRecode => "SRecode Template",
            LanguageType::Stan => "Stan",
            LanguageType::Stratego => "Stratego/XT",
            LanguageType::Stylus => "Stylus",
            LanguageType::Svelte => "Svelte",
            LanguageType::Svg => "SVG",
            LanguageType::Swift => "Swift",
            LanguageType::Swig => "SWIG",
            LanguageType::SystemVerilog => "SystemVerilog",
            LanguageType::Tcl => "TCL",
            LanguageType::Tera => "Tera",
            LanguageType::Tex => "TeX",
            LanguageType::Text => "Plain Text",
            LanguageType::Thrift => "Thrift",
            LanguageType::Toml => "TOML",
            LanguageType::Tsx => "TSX",
            LanguageType::Ttcn => "TTCN-3",
            LanguageType::Twig => "Twig",
            LanguageType::TypeScript => "TypeScript",
            LanguageType::UnrealPlugin => "Unreal Plugin",
            LanguageType::UnrealProject => "Unreal Project",
            LanguageType::UnrealScript => "Unreal Script",
            LanguageType::UnrealShader => "Unreal Shader",
            LanguageType::UnrealShaderHeader => "Unreal Shader Header",
            LanguageType::UnrealDeveloperMarkdown => "Unreal Markdown",
            LanguageType::UrWeb => "Ur/Web",
            LanguageType::UrWebProject => "Ur/Web Project",
            LanguageType::Vala => "Vala",
            LanguageType::VB6 => "VB6",
            LanguageType::VBScript => "VBScript",
            LanguageType::Velocity => "Apache Velocity",
            LanguageType::Verilog => "Verilog",
            LanguageType::VerilogArgsFile => "Verilog Args File",
            LanguageType::Vhdl => "VHDL",
            LanguageType::VisualBasic => "Visual Basic",
            LanguageType::VisualStudioSolution => "Visual Studio Solution",
            LanguageType::VisualStudioProject => "Visual Studio Project",
            LanguageType::VimScript => "Vim script",
            LanguageType::Vue => "Vue",
            LanguageType::WebAssembly => "WebAssembly",
            LanguageType::Wolfram => "Wolfram",
            LanguageType::Xaml => "XAML",
            LanguageType::XcodeConfig => "Xcode Config",
            LanguageType::Xml => "XML",
            LanguageType::XSL => "XSL",
            LanguageType::MsBuild => "MSBuild",
            LanguageType::Xtend => "Xtend",
            LanguageType::Yaml => "YAML",
            LanguageType::Zig => "Zig",
            LanguageType::Zsh => "Zsh",
        }
    }

    /// Returns the language standing at position `i` of the listing order.
    fn at_index(i: usize) -> (r: LanguageType)
        requires
            i < 226,
        ensures
            r == lang_at(i as int),
    {
        if i < 113 {
            if i < 56 {
                if i < 28 {
                    if i < 14 {
                        if i < 7 {
                            if i < 3 {
                                if i < 1 {
                                    LanguageType::Abap
                                } else {
                                    if i < 2 {
                                        LanguageType::ABNF
                                    } else {
                                        LanguageType::ActionScript
                                    }
                                }
                            } else {
                                if i < 5 {
                                    if i < 4 {
                                        LanguageType::Ada
                                    } else {
                                        LanguageType::Alex
                                    }
                                } else {
                                    if i < 6 {
                                        LanguageType::Agda
                                    } else {
                                        LanguageType::Alloy
                                    }
                                }
                            }
                        } else {
                            if i < 10 {
                                if i < 8 {
                                    LanguageType::Arduino
                                } else {
                                    if i < 9 {
                                        LanguageType::AsciiDoc
                                    } else {
                                        LanguageType::Asn1
                                    }
                                }
                            } else {
                                if i < 12 {
                                    if i < 11 {
                                        LanguageType::Assembly
                                    } else {
                                        LanguageType::AssemblyGAS
                                    }
                                } else {
                                    if i < 13 {
                                        LanguageType::Asp
                                    } else {
                                        LanguageType::AspNet
                                    }
                                }
                            }
                        }
                    } else {
                        if i < 21 {
                            if i < 17 {
                                if i < 15 {
                                    LanguageType::Autoconf
                                } else {
                                    if i < 16 {
                                        LanguageType::AutoHotKey
                                    } else {
                                        LanguageType::Automake
                                    }
                                }
                            } else {
                                if i < 19 {
                                    if i < 18 {
                                        LanguageType::Sh
                                    } else {
                                        LanguageType::Bash
                                    }
                                } else {
                                    if i < 20 {
                                        LanguageType::BrightScript
                                    } else {
                                        LanguageType::Elvish
                                    }
                                }
                            }
                        } else {
                            if i < 24 {
                                if i < 22 {
                                    LanguageType::Fish
                                } else {
                                    if i < 23 {
                                        LanguageType::Batch
                                    } else {
                                        LanguageType::Bean
                                    }
                                }
                            } else {
                                if i < 26 {
                                    if i < 25 {
                                        LanguageType::C
                                    } else {
                                        LanguageType::Cabal
                                    }
                                } else {
                                    if i < 27 {
                                        LanguageType::Cassius
                                    } else {
                                        LanguageType::Ceylon
                                    }
                                }
                            }
                        }
                    }
                } else {
                    if i < 42 {
                        if i < 35 {
                            if i < 31 {
                                if i < 29 {
                                    LanguageType::CHeader
                                } else {
                                    if i < 30 {
                                        LanguageType::Clojure
                                    } else {
                                        LanguageType::ClojureScript
                                    }
                                }
                            } else {
                                if i < 33 {
                                    if i < 32 {
                                        LanguageType::ClojureC
                                    } else {
                                        LanguageType::CMake
                                    }
                                } else {
                                    if i < 34 {
                                        LanguageType::Cobol
                                    } else {
                                        LanguageType::CodeQL
                                    }
                                }
                            }
                        } else {
                            if i < 38 {
                                if i < 36 {
                                    LanguageType::CoffeeScript
                                } else {
                                    if i < 37 {
                                        LanguageType::Cogent
                                    } else {
                                        LanguageType::ColdFusion
                                    }
                                }
                            } else {
                                if i < 40 {
                                    if i < 39 {
                                        LanguageType::ColdFusionScript
                                    } else {
                                        LanguageType::Coq
                                    }
                                } else {
                                    if i < 41 {
                                        LanguageType::Cpp
                                    } else {
                                        LanguageType::CppHeader
                                    }
                                }
                            }
                        }
                    } else {
                        if i < 49 {
                            if i < 45 {
                                if i < 43 {
                                    LanguageType::Crystal
                                } else {
                                    if i < 44 {
                                        LanguageType::CSharp
                                    } else {
                                        LanguageType::CShell
                                    }
                                }
                            } else {
                                if i < 47 {
                                    if i < 46 {
                                        LanguageType::Css
                                    } else {
                                        LanguageType::D
                                    }
                                } else {
                                    if i < 48 {
                                        LanguageType::Daml
                                    } else {
                                        LanguageType::Dart
                                    }
                                }
                            }
                        } else {
                            if i < 52 {
                                if i < 50 {
                                    LanguageType::DeviceTree
                                } else {
                                    if i < 51 {
                                        LanguageType::Dhall
                                    } else {
                                        LanguageType::DreamMaker
                                    }
                                }
                            } else {
                                if i < 54 {
                                    if i < 53 {
                                        LanguageType::Dockerfile
                                    } else {
                                        LanguageType::DotNetResource
                                    }
                                } else {
                                    if i < 55 {
                                        LanguageType::Dust
                                    } else {
                                        LanguageType::Edn
                                    }
                                }
                            }
                        }
                    }
                }
            } else {
                if i < 84 {
                    if i < 70 {
                        if i < 63 {
                            if i < 59 {
                                if i < 57 {
                                    LanguageType::Elisp
                                } else {
                                    if i < 58 {
                                        LanguageType::Elixir
                                    } else {
                                        LanguageType::Elm
                                    }
                                }
                            } else {
                                if i < 61 {
                                    if i < 60 {
                                        LanguageType::EmacsDevEnv
                                    } else {
                                        LanguageType::Emojicode
                                    }
                                } else {
                                    if i < 62 {
                                        LanguageType::Erlang
                                    } else {
                                        LanguageType::FEN
                                    }
                                }
                            }
                        } else {
                            if i < 66 {
                                if i < 64 {
                                    LanguageType::FlatBuffers
                                } else {
                                    if i < 65 {
                                        LanguageType::Fstar
                                    } else {
                                        LanguageType::Forth
                                    }
                                }
                            } else {
                                if i < 68 {
                                    if i < 67 {
                                        LanguageType::FortranLegacy
                                    } else {
                                        LanguageType::FortranModern
                                    }
                                } else {
                                    if i < 69 {
                                        LanguageType::FreeMarker
                                    } else {
                                        LanguageType::FSharp
                                    }
                                }
                            }
                        }
                    } else {
                        if i < 77 {
                            if i < 73 {
                                if i < 71 {
                                    LanguageType::Futhark
                                } else {
                                    if i < 72 {
                                        LanguageType::GDB
                                    } else {
                                        LanguageType::GdScript
                                    }
                                }
                            } else {
                                if i < 75 {
                                    if i < 74 {
                                        LanguageType::Gherkin
                                    } else {
                                        LanguageType::Gleam
                                    }
                                } else {
                                    if i < 76 {
                                        LanguageType::Glsl
                                    } else {
                                        LanguageType::Go
                                    }
                                }
                            }
                        } else {
                            if i < 80 {
                                if i < 78 {
                                    LanguageType::Gohtml
                                } else {
                                    if i < 79 {
                                        LanguageType::Graphql
                                    } else {
                                        LanguageType::Groovy
                                    }
                                }
                            } else {
                                if i < 82 {
                                    if i < 81 {
                                        LanguageType::Gwion
                                    } else {
                                        LanguageType::Happy
                                    }
                                } else {
                                    if i < 83 {
                                        LanguageType::Handlebars
                                    } else {
                                        LanguageType::Haskell
                                    }
                                }
                            }
                        }
                    }
                } else {
                    if i < 98 {
                        if i < 91 {
                            if i < 87 {
                                if i < 85 {
                                    LanguageType::Hcl
                                } else {
                                    if i < 86 {
                                        LanguageType::Headache
                                    } else {
                                        LanguageType::Hlsl
                                    }
                                }
                            } else {
                                if i < 89 {
                                    if i < 88 {
                                        LanguageType::HolyC
                                    } else {
                                        LanguageType::Html
                                    }
                                } else {
                                    if i < 90 {
                                        LanguageType::Hamlet
                                    } else {
                                        LanguageType::Haxe
                                    }
                                }
                            }
                        } else {
                            if i < 94 {
                                if i < 92 {
                                    LanguageType::Hex
                                } else {
                                    if i < 93 {
                                        LanguageType::Idris
                                    } else {
                                        LanguageType::Ini
                                    }
                                }
                            } else {
                                if i < 96 {
                                    if i < 95 {
                                        LanguageType::IntelHex
                                    } else {
                                        LanguageType::Isabelle
                                    }
                                } else {
                                    if i < 97 {
                                        LanguageType::Jai
                                    } else {
                                        LanguageType::Java
                                    }
                                }
                            }
                        }
                    } else {
                        if i < 105 {
                            if i < 101 {
                                if i < 99 {
                                    LanguageType::JavaScript
                                } else {
                                    if i < 100 {
                                        LanguageType::Json
                                    } else {
                                        LanguageType::Jsonnet
                                    }
                                }
                            } else {
                                if i < 103 {
                                    if i < 102 {
                                        LanguageType::Jsx
                                    } else {
                                        LanguageType::Julia
                                    }
                                } else {
                                    if i < 104 {
                                        LanguageType::Julius
                                    } else {
                                        LanguageType::Jupyter
                                    }
                                }
                            }
                        } else {
                            if i < 109 {
                                if i < 107 {
                                    if i < 106 {
                                        LanguageType::K
                                    } else {
                                        LanguageType::KakouneScript
                                    }
                                } else {
                                    if i < 108 {
                                        LanguageType::Kotlin
                                    } else {
                                        LanguageType::Lean
                                    }
                                }
                            } else {
                                if i < 111 {
                                    if i < 110 {
                                        LanguageType::Less
                                    } else {
                                        LanguageType::Liquid
                                    }
                                } else {
                                    if i < 112 {
                                        LanguageType::LinkerScript
                                    } else {
                                        LanguageType::Lisp
                                    }
                                }
                            }
                        }
                    }
                }
            }
        } else {
            if i < 169 {
                if i < 141 {
                    if i < 127 {
                        if i < 120 {
                            if i < 116 {
                                if i < 114 {
                                    LanguageType::LiveScript
                                } else {
                                    if i < 115 {
                                        LanguageType::LLVM
                                    } else {
                                        LanguageType::Logtalk
                                    }
                                }
                            } else {
                                if i < 118 {
                                    if i < 117 {
                                        LanguageType::Lua
                                    } else {
                                        LanguageType::Lucius
                                    }
                                } else {
                                    if i < 119 {
                                        LanguageType::Madlang
                                    } else {
                                        LanguageType::Makefile
                                    }
                                }
                            }
                        } else {
                            if i < 123 {
                                if i < 121 {
                                    LanguageType::Markdown
                                } else {
                                    if i < 122 {
                                        LanguageType::ModuleDef
                                    } else {
                                        LanguageType::MoonScript
                                    }
                                }
                            } else {
                                if i < 125 {
                                    if i < 124 {
                                        LanguageType::Meson
                                    } else {
                                        LanguageType::Mint
                                    }
                                } else {
                                    if i < 126 {
                                        LanguageType::Mustache
                                    } else {
                                        LanguageType::Nim
                                    }
                                }
                            }
                        }
                    } else {
                        if i < 134 {
                            if i < 130 {
                                if i < 128 {
                                    LanguageType::Nix
                                } else {
                                    if i < 129 {
                                        LanguageType::ObjectiveC
                                    } else {
                                        LanguageType::ObjectiveCpp
                                    }
                                }
                            } else {
                                if i < 132 {
                                    if i < 131 {
                                        LanguageType::OCaml
                                    } else {
                                        LanguageType::Odin
                                    }
                                } else {
                                    if i < 133 {
                                        LanguageType::OpenType
                                    } else {
                                        LanguageType::Org
                                    }
                                }
                            }
                        } else {
                            if i < 137 {
                                if i < 135 {
                                    LanguageType::Oz
                                } else {
                                    if i < 136 {
                                        LanguageType::Pan
                                    } else {
                                        LanguageType::Pascal
                                    }
                                }
                            } else {
                                if i < 139 {
                                    if i < 138 {
                                        LanguageType::Perl
                                    } else {
                                        LanguageType::Perl6
                                    }
                                } else {
                                    if i < 140 {
                                        LanguageType::Pest
                                    } else {
                                        LanguageType::NotQuitePerl
                                    }
                                }
                            }
                        }
                    }
                } else {
                    if i < 155 {
                        if i < 148 {
                            if i < 144 {
                                if i < 142 {
                                    LanguageType::Php
                                } else {
                                    if i < 143 {
                                        LanguageType::Polly
                                    } else {
                                        LanguageType::Pony
                                    }
                                }
                            } else {
                                if i < 146 {
                                    if i < 145 {
                                        LanguageType::PostCss
                                    } else {
                                        LanguageType::Processing
                                    }
                                } else {
                                    if i < 147 {
                                        LanguageType::Prolog
                                    } else {
                                        LanguageType::PowerShell
                                    }
                                }
                            }
                        } else {
                            if i < 151 {
                                if i < 149 {
                                    LanguageType::PSL
                                } else {
                                    if i < 150 {
                                        LanguageType::Protobuf
                                    } else {
                                        LanguageType::Pug
                                    }
                                }
                            } else {
                                if i < 153 {
                                    if i < 152 {
                                        LanguageType::PureScript
                                    } else {
                                        LanguageType::Python
                                    }
                                } else {
                                    if i < 154 {
                                        LanguageType::Qcl
                                    } else {
                                        LanguageType::Q
                                    }
                                }
                            }
                        }
                    } else {
                        if i < 162 {
                            if i < 158 {
                                if i < 156 {
                                    LanguageType::Qml
                                } else {
                                    if i < 157 {
                                        LanguageType::R
                                    } else {
                                        LanguageType::Racket
                                    }
                                }
                            } else {
                                if i < 160 {
                                    if i < 159 {
                                        LanguageType::Rakefile
                                    } else {
                                        LanguageType::Razor
                                    }
                                } else {
                                    if i < 161 {
                                        LanguageType::Renpy
                                    } else {
                                        LanguageType::RON
                                    }
                                }
                            }
                        } else {
                            if i < 165 {
                                if i < 163 {
                                    LanguageType::RPMSpecfile
                                } else {
                                    if i < 164 {
                                        LanguageType::Ruby
                                    } else {
                                        LanguageType::RubyHtml
                                    }
                                }
                            } else {
                                if i < 167 {
                                    if i < 166 {
                                        LanguageType::Rust
                                    } else {
                                        LanguageType::ReStructuredText
                                    }
                                } else {
                                    if i < 168 {
                                        LanguageType::Sass
                                    } else {
                                        LanguageType::Scala
                                    }
                                }
                            }
                        }
                    }
                }
            } else {
                if i < 197 {
                    if i < 183 {
                        if i < 176 {
                            if i < 172 {
                                if i < 170 {
                                    LanguageType::Scheme
                                } else {
                                    if i < 171 {
                                        LanguageType::Scons
                                    } else {
                                        LanguageType::Sml
                                    }
                                }
                            } else {
                                if i < 174 {
                                    if i < 173 {
                                        LanguageType::Solidity
                                    } else {
                                        LanguageType::SpecmanE
                                    }
                                } else {
                                    if i < 175 {
                                        LanguageType::Spice
                                    } else {
                                        LanguageType::Sql
                                    }
                                }
                            }
                        } else {
                            if i < 179 {
                                if i < 177 {
                                    LanguageType::SRecode
                                } else {
                                    if i < 178 {
                                        LanguageType::Stan
                                    } else {
                                        LanguageType::Stratego
                                    }
                                }
                            } else {
                                if i < 181 {
                                    if i < 180 {
                                        LanguageType::Stylus
                                    } else {
                                        LanguageType::Svelte
                                    }
                                } else {
                                    if i < 182 {
                                        LanguageType::Svg
                                    } else {
                                        LanguageType::Swift
                                    }
                                }
                            }
                        }
                    } else {
                        if i < 190 {
                            if i < 186 {
                                if i < 184 {
                                    LanguageType::Swig
                                } else {
                                    if i < 185 {
                                        LanguageType::SystemVerilog
                                    } else {
                                        LanguageType::Tcl
                                    }
                                }
                            } else {
                                if i < 188 {
                                    if i < 187 {
                                        LanguageType::Tera
                                    } else {
                                        LanguageType::Tex
                                    }
                                } else {
                                    if i < 189 {
                                        LanguageType::Text
                                    } else {
                                        LanguageType::Thrift
                                    }
                                }
                            }
                        } else {
                            if i < 193 {
                                if i < 191 {
                                    LanguageType::Toml
                                } else {
                                    if i < 192 {
                                        LanguageType::Tsx
                                    } else {
                                        LanguageType::Ttcn
                                    }
                                }
                            } else {
                                if i < 195 {
                                    if i < 194 {
                                        LanguageType::Twig
                                    } else {
                                        LanguageType::TypeScript
                                    }
                                } else {
                                    if i < 196 {
                                        LanguageType::UnrealPlugin
                                    } else {
                                        LanguageType::UnrealProject
                                    }
                                }
                            }
                        }
                    }
                } else {
                    if i < 211 {
                        if i < 204 {
                            if i < 200 {
                                if i < 198 {
                                    LanguageType::UnrealScript
                                } else {
                                    if i < 199 {
                                        LanguageType::UnrealShader
                                    } else {
                                        LanguageType::UnrealShaderHeader
                                    }
                                }
                            } else {
                                if i < 202 {
                                    if i < 201 {
                                        LanguageType::UnrealDeveloperMarkdown
                                    } else {
                                        LanguageType::UrWeb
                                    }
                                } else {
                                    if i < 203 {
                                        LanguageType::UrWebProject
                                    } else {
                                        LanguageType::Vala
                                    }
                                }
                            }
                        } else {
                            if i < 207 {
                                if i < 205 {
                                    LanguageType::VB6
                                } else {
                                    if i < 206 {
                                        LanguageType::VBScript
                                    } else {
                                        LanguageType::Velocity
                                    }
                                }
                            } else {
                                if i < 209 {
                                    if i < 208 {
                                        LanguageType::Verilog
                                    } else {
                                        LanguageType::VerilogArgsFile
                                    }
                                } else {
                                    if i < 210 {
                                        LanguageType::Vhdl
                                    } else {
                                        LanguageType::VisualBasic
                                    }
                                }
                            }
                        }
                    } else {
                        if i < 218 {
                            if i < 214 {
                                if i < 212 {
                                    LanguageType::VisualStudioSolution
                                } else {
                                    if i < 213 {
                                        LanguageType::VisualStudioProject
                                    } else {
                                        LanguageType::VimScript
                                    }
                                }
                            } else {
                                if i < 216 {
                                    if i < 215 {
                                        LanguageType::Vue
                                    } else {
                                        LanguageType::WebAssembly
                                    }
                                } else {
                                    if i < 217 {
                                        LanguageType::Wolfram
                                    } else {
                                        LanguageType::Xaml
                                    }
                                }
                            }
                        } else {
                            if i < 222 {
                                if i < 220 {
                                    if i < 219 {
                                        LanguageType::XcodeConfig
                                    } else {
                                        LanguageType::Xml
                                    }
                                } else {
                                    if i < 221 {
                                        LanguageType::XSL
                                    } else {
                                        LanguageType::MsBuild
                                    }
                                }
                            } else {
                                if i < 224 {
                                    if i < 223 {
                                        LanguageType::Xtend
                                    } else {
                                        LanguageType::Yaml
                                    }
                                } else {
                                    if i < 225 {
                                        LanguageType::Zig
                                    } else {
                                        LanguageType::Zsh
                                    }
                                }
                            }
                        }
                    }
                }
            }
        }
    }

    /// Returns every language of the registry, in listing order.
    pub fn list() -> (r: Vec<LanguageType>)
        ensures
            r@ == list_spec(),
            r@.len() == 226,
            forall|t: LanguageType| r@.contains(t),
            forall|i: int, j: int| 0 <= i < j < r@.len() ==> r@[i] != r@[j],
    {
        let mut v: Vec<LanguageType> = Vec::new();
        let mut i: usize = 0;
        while i < 226
            invariant
                i <= 226,
                v@ =~= Seq::new(i as nat, |j: int| lang_at(j)),
            decreases 226 - i,
        {
            v.push(Self::at_index(i));
            i = i + 1;
            assert(v@ =~= Seq::new(i as nat, |j: int| lang_at(j)));
        }
        assert(v@ =~= list_spec());
        assert forall|t: LanguageType| v@.contains(t) by {
            lemma_list_complete(t);
        }
        assert forall|i: int, j: int| 0 <= i < j < v@.len() implies v@[i] != v@[j] by {
            if lang_at(i) == lang_at(j) {
                lemma_list_no_duplicates(i, j);
            }
        }
        v
    }
}

/// Resolves a display name to its language.
///
/// The lookup is case sensitive and total over the registry's display
/// names: it succeeds exactly on those, and hands every other string
/// back inside the error rather than falling back to some default
/// variant.
pub fn language_type_mapper(lang_type: &str) -> (r: Result<LanguageType, UnknownLanguageName>)
    ensures
        match r {
            Ok(t) => name_spec(t) == lang_type@,
            Err(e) => e.name@ == lang_type@ && forall|t: LanguageType| name_spec(t) != lang_type@,
        },
{
    let all = LanguageType::list();
    let n = all.len();
    let mut i: usize = 0;
    while i < n
        invariant
            n == all@.len(),
            all@ == list_spec(),
            i <= n,
            forall|j: int| 0 <= j < i ==> name_spec(list_spec()[j]) != lang_type@,
        decreases n - i,
    {
        let t = all[i];
        if str_eq(lang_type, t.name()) {
            return Ok(t);
        }
        i = i + 1;
    }
    assert forall|t: LanguageType| name_spec(t) != lang_type@ by {
        lemma_list_complete(t);
        let j = choose|j: int| 0 <= j < list_spec().len() && list_spec()[j] == t;
        assert(name_spec(list_spec()[j]) != lang_type@);
    }
    Err(UnknownLanguageName { name: lang_type.to_owned() })
}

} // verus!
