//! The lexical metadata of each language in the registry: comment
//! markers, string delimiters, shebangs and related disambiguators.
//! Each accessor is proved equal to its spec-level table, which is
//! the definition of the registry's metadata.

use vstd::prelude::*;

use crate::language_type::LanguageType;

verus! {

/// Whether prose is the language's default content and code blocks are the exception.
pub open spec fn is_literate_spec(t: LanguageType) -> bool {
    match t {
        LanguageType::Markdown => true,
        LanguageType::Text => true,
        _ => false,
    }
}

/// Whether the language's multi-line comments may nest.
pub open spec fn allows_nested_spec(t: LanguageType) -> bool {
    match t {
        LanguageType::Agda => true,
        LanguageType::Cabal => true,
        LanguageType::Daml => true,
        LanguageType::Dhall => true,
        LanguageType::DreamMaker => true,
        LanguageType::Elm => true,
        LanguageType::Haskell => true,
        LanguageType::Idris => true,
        LanguageType::Jai => true,
        LanguageType::Julia => true,
        LanguageType::K => true,
        LanguageType::Kotlin => true,
        LanguageType::Lean => true,
        LanguageType::Lisp => true,
        LanguageType::Pascal => true,
        LanguageType::PureScript => true,
        LanguageType::Q => true,
        LanguageType::Racket => true,
        LanguageType::RON => true,
        LanguageType::Rust => true,
        LanguageType::Scheme => true,
        LanguageType::Swift => true,
        LanguageType::Swig => true,
        _ => false,
    }
}

/// The markers that open a comment running to the end of the line.
pub open spec fn line_comments_spec(t: LanguageType) -> Seq<Seq<char>> {
    match t {
        LanguageType::Abap => seq!["*"@, "\""@],
        LanguageType::ABNF => seq![";"@],
        LanguageType::ActionScript => seq!["//"@],
        LanguageType::Ada => seq!["--"@],
        LanguageType::Agda => seq!["--"@],
        LanguageType::Alloy => seq!["--"@, "//"@],
        LanguageType::Arduino => seq!["//"@],
        LanguageType::AsciiDoc => seq!["//"@],
        LanguageType::Asn1 => seq!["--"@],
        LanguageType::Assembly => seq![";"@],
        LanguageType::AssemblyGAS => seq!["//"@],
        LanguageType::Asp => seq!["'"@, "REM"@],
        LanguageType::Autoconf => seq!["#"@, "dnl"@],
        LanguageType::AutoHotKey => seq![";"@],
        LanguageType::Automake => seq!["#"@],
        LanguageType::Sh => seq!["#"@],
        LanguageType::Bash => seq!["#"@],
        LanguageType::BrightScript => seq!["'"@, "REM"@],
        LanguageType::Elvish => seq!["#"@],
        LanguageType::Fish => seq!["#"@],
        LanguageType::Batch => seq!["REM"@, "::"@],
        LanguageType::Bean => seq![";"@],
        LanguageType::C => seq!["//"@],
        LanguageType::Cabal => seq!["--"@],
        LanguageType::Cassius => seq!["//"@],
        LanguageType::Ceylon => seq!["//"@],
        LanguageType::CHeader => seq!["//"@],
        LanguageType::Clojure => seq![";"@],
        LanguageType::ClojureScript => seq![";"@],
        LanguageType::ClojureC => seq![";"@],
        LanguageType::CMake => seq!["#"@],
        LanguageType::Cobol => seq!["*"@],
        LanguageType::CodeQL => seq!["//"@],
        LanguageType::CoffeeScript => seq!["#"@],
        LanguageType::Cogent => seq!["--"@],
        LanguageType::ColdFusionScript => seq!["//"@],
        LanguageType::Cpp => seq!["//"@],
        LanguageType::CppHeader => seq!["//"@],
        LanguageType::Crystal => seq!["#"@],
        LanguageType::CSharp => seq!["//"@],
        LanguageType::CShell => seq!["#"@],
        LanguageType::Css => seq!["//"@],
        LanguageType::D => seq!["//"@],
        LanguageType::Daml => seq!["-- "@],
        LanguageType::Dart => seq!["//"@],
        LanguageType::DeviceTree => seq!["//"@],
        LanguageType::Dhall => seq!["--"@],
        LanguageType::DreamMaker => seq!["//"@],
        LanguageType::Dockerfile => seq!["#"@],
        LanguageType::Edn => seq![";"@],
        LanguageType::Elisp => seq![";"@],
        LanguageType::Elixir => seq!["#"@],
        LanguageType::Elm => seq!["--"@],
        LanguageType::EmacsDevEnv => seq![";"@],
        LanguageType::Emojicode => seq!["💭"@],
        LanguageType::Erlang => seq!["%"@],
        LanguageType::FlatBuffers => seq!["//"@],
        LanguageType::Fstar => seq!["//"@],
        LanguageType::Forth => seq!["\\"@],
        LanguageType::FortranLegacy => seq!["c"@, "C"@, "!"@, "*"@],
        LanguageType::FortranModern => seq!["!"@],
        LanguageType::FSharp => seq!["//"@],
        LanguageType::Futhark => seq!["--"@],
        LanguageType::GDB => seq!["#"@],
        LanguageType::GdScript => seq!["#"@],
        LanguageType::Gherkin => seq!["#"@],
        LanguageType::Gleam => seq!["//"@, "///"@, "////"@],
        LanguageType::Glsl => seq!["//"@],
        LanguageType::Go => seq!["//"@],
        LanguageType::Graphql => seq!["#"@],
        LanguageType::Groovy => seq!["//"@],
        LanguageType::Gwion => seq!["#!"@],
        LanguageType::Haskell => seq!["--"@],
        LanguageType::Hcl => seq!["#"@, "//"@],
        LanguageType::Headache => seq!["//"@],
        LanguageType::Hlsl => seq!["//"@],
        LanguageType::HolyC => seq!["//"@],
        LanguageType::Haxe => seq!["//"@],
        LanguageType::Idris => seq!["--"@],
        LanguageType::Ini => seq![";"@, "#"@],
        LanguageType::Isabelle => seq!["--"@],
        LanguageType::Jai => seq!["//"@],
        LanguageType::Java => seq!["//"@],
        LanguageType::JavaScript => seq!["//"@],
        LanguageType::Jsonnet => seq!["//"@, "#"@],
        LanguageType::Jsx => seq!["//"@],
        LanguageType::Julia => seq!["#"@],
        LanguageType::Julius => seq!["//"@],
        LanguageType::K => seq!["/"@],
        LanguageType::KakouneScript => seq!["#"@],
        LanguageType::Kotlin => seq!["//"@],
        LanguageType::Lean => seq!["--"@],
        LanguageType::Less => seq!["//"@],
        LanguageType::LinkerScript => seq!["//"@],
        LanguageType::Lisp => seq![";"@],
        LanguageType::LiveScript => seq!["#"@],
        LanguageType::LLVM => seq![";"@],
        LanguageType::Logtalk => seq!["%"@],
        LanguageType::Lua => seq!["--"@],
        LanguageType::Lucius => seq!["//"@],
        LanguageType::Madlang => seq!["#"@],
        LanguageType::Makefile => seq!["#"@],
        LanguageType::ModuleDef => seq![";"@],
        LanguageType::MoonScript => seq!["--"@],
        LanguageType::Meson => seq!["#"@],
        LanguageType::Nim => seq!["#"@],
        LanguageType::Nix => seq!["#"@],
        LanguageType::ObjectiveC => seq!["//"@],
        LanguageType::ObjectiveCpp => seq!["//"@],
        LanguageType::Odin => seq!["//"@],
        LanguageType::OpenType => seq!["#"@],
        LanguageType::Org => seq!["# "@],
        LanguageType::Oz => seq!["%"@],
        LanguageType::Pan => seq!["#"@],
        LanguageType::Pascal => seq!["//"@],
        LanguageType::Perl => seq!["#"@],
        LanguageType::Perl6 => seq!["#"@],
        LanguageType::Pest => seq!["//"@],
        LanguageType::NotQuitePerl => seq!["#"@],
        LanguageType::Php => seq!["#"@, "//"@],
        LanguageType::Pony => seq!["//"@],
        LanguageType::PostCss => seq!["//"@],
        LanguageType::Processing => seq!["//"@],
        LanguageType::Prolog => seq!["%"@],
        LanguageType::PowerShell => seq!["#"@],
        LanguageType::PSL => seq!["//"@],
        LanguageType::Protobuf => seq!["//"@],
        LanguageType::Pug => seq!["//"@, "//-"@],
        LanguageType::PureScript => seq!["--"@],
        LanguageType::Python => seq!["#"@],
        LanguageType::Qcl => seq!["//"@],
        LanguageType::Q => seq!["/"@],
        LanguageType::Qml => seq!["//"@],
        LanguageType::R => seq!["#"@],
        LanguageType::Racket => seq![";"@],
        LanguageType::Rakefile => seq!["#"@],
        LanguageType::Renpy => seq!["#"@],
        LanguageType::RON => seq!["//"@],
        LanguageType::RPMSpecfile => seq!["#"@],
        LanguageType::Ruby => seq!["#"@],
        LanguageType::Rust => seq!["//"@],
        LanguageType::Sass => seq!["//"@],
        LanguageType::Scala => seq!["//"@],
        LanguageType::Scheme => seq![";"@],
        LanguageType::Scons => seq!["#"@],
        LanguageType::Solidity => seq!["//"@],
        LanguageType::SpecmanE => seq!["--"@, "//"@],
        LanguageType::Spice => seq!["*"@],
        LanguageType::Sql => seq!["--"@],
        LanguageType::SRecode => seq![";;"@],
        LanguageType::Stan => seq!["//"@, "#"@],
        LanguageType::Stratego => seq!["//"@],
        LanguageType::Stylus => seq!["//"@],
        LanguageType::Swift => seq!["//"@],
        LanguageType::Swig => seq!["//"@],
        LanguageType::SystemVerilog => seq!["//"@],
        LanguageType::Tcl => seq!["#"@],
        LanguageType::Tex => seq!["%"@],
        LanguageType::Thrift => seq!["#"@, "//"@],
        LanguageType::Toml => seq!["#"@],
        LanguageType::Tsx => seq!["//"@],
        LanguageType::Ttcn => seq!["//"@],
        LanguageType::TypeScript => seq!["//"@],
        LanguageType::UnrealScript => seq!["//"@],
        LanguageType::UnrealShader => seq!["//"@],
        LanguageType::UnrealShaderHeader => seq!["//"@],
        LanguageType::UrWebProject => seq!["#"@],
        LanguageType::Vala => seq!["//"@],
        LanguageType::VB6 => seq!["'"@],
        LanguageType::VBScript => seq!["'"@, "REM"@],
        LanguageType::Velocity => seq!["##"@],
        LanguageType::Verilog => seq!["//"@],
        LanguageType::Vhdl => seq!["--"@],
        LanguageType::VisualBasic => seq!["'"@],
        LanguageType::VimScript => seq!["\""@],
        LanguageType::Vue => seq!["//"@],
        LanguageType::WebAssembly => seq![";;"@],
        LanguageType::XcodeConfig => seq!["//"@],
        LanguageType::Xtend => seq!["//"@],
        LanguageType::Yaml => seq!["#"@],
        LanguageType::Zig => seq!["//"@],
        LanguageType::Zsh => seq!["#"@],
        _ => Seq::<Seq<char>>::empty(),
    }
}

/// The delimiter pairs of multi-line comments.
pub open spec fn multi_line_comments_spec(t: LanguageType) -> Seq<(Seq<char>, Seq<char>)> {
    match t {
        LanguageType::ActionScript => seq![("/*"@, "*/"@)],
        LanguageType::Agda => seq![("{-"@, "-}"@)],
        LanguageType::Alloy => seq![("/*"@, "*/"@)],
        LanguageType::Arduino => seq![("/*"@, "*/"@)],
        LanguageType::AsciiDoc => seq![("////"@, "////"@)],
        LanguageType::Asn1 => seq![("/*"@, "*/"@)],
        LanguageType::AssemblyGAS => seq![("/*"@, "*/"@)],
        LanguageType::AspNet => seq![("<!--"@, "-->"@), ("<%--"@, "-->"@)],
        LanguageType::AutoHotKey => seq![("/*"@, "*/"@)],
        LanguageType::C => seq![("/*"@, "*/"@)],
        LanguageType::Cabal => seq![("{-"@, "-}"@)],
        LanguageType::Cassius => seq![("/*"@, "*/"@)],
        LanguageType::Ceylon => seq![("/*"@, "*/"@)],
        LanguageType::CHeader => seq![("/*"@, "*/"@)],
        LanguageType::CodeQL => seq![("/*"@, "*/"@)],
        LanguageType::CoffeeScript => seq![("###"@, "###"@)],
        LanguageType::ColdFusion => seq![("<!---"@, "--->"@)],
        LanguageType::ColdFusionScript => seq![("/*"@, "*/"@)],
        LanguageType::Coq => seq![("(*"@, "*)"@)],
        LanguageType::Cpp => seq![("/*"@, "*/"@)],
        LanguageType::CppHeader => seq![("/*"@, "*/"@)],
        LanguageType::CSharp => seq![("/*"@, "*/"@)],
        LanguageType::Css => seq![("/*"@, "*/"@)],
        LanguageType::D => seq![("/*"@, "*/"@)],
        LanguageType::Daml => seq![("{-"@, "-}"@)],
        LanguageType::Dart => seq![("/*"@, "*/"@)],
        LanguageType::DeviceTree => seq![("/*"@, "*/"@)],
        LanguageType::Dhall => seq![("{-"@, "-}"@)],
        LanguageType::DreamMaker => seq![("/*"@, "*/"@)],
        LanguageType::DotNetResource => seq![("<!--"@, "-->"@)],
        LanguageType::Dust => seq![("{!"@, "!}"@)],
        LanguageType::Elm => seq![("{-"@, "-}"@)],
        LanguageType::Emojicode => seq![("💭🔜"@, "🔚💭"@), ("📗"@, "📗"@), ("📘"@, "📘"@)],
        LanguageType::FlatBuffers => seq![("/*"@, "*/"@)],
        LanguageType::Fstar => seq![("(*"@, "*)"@)],
        LanguageType::Forth => seq![("( "@, ")"@)],
        LanguageType::FreeMarker => seq![("<#--"@, "-->"@)],
        LanguageType::FSharp => seq![("(*"@, "*)"@)],
        LanguageType::Glsl => seq![("/*"@, "*/"@)],
        LanguageType::Go => seq![("/*"@, "*/"@)],
        LanguageType::Gohtml => seq![("<!--"@, "-->"@), ("{{/*"@, "*/}}"@)],
        LanguageType::Groovy => seq![("/*"@, "*/"@)],
        LanguageType::Handlebars => seq![("<!--"@, "-->"@), ("{{!"@, "}}"@)],
        LanguageType::Haskell => seq![("{-"@, "-}"@)],
        LanguageType::Hcl => seq![("/*"@, "*/"@)],
        LanguageType::Headache => seq![("/*"@, "*/"@)],
        LanguageType::Hlsl => seq![("/*"@, "*/"@)],
        LanguageType::HolyC => seq![("/*"@, "*/"@)],
        LanguageType::Html => seq![("<!--"@, "-->"@)],
        LanguageType::Hamlet => seq![("<!--"@, "-->"@)],
        LanguageType::Haxe => seq![("/*"@, "*/"@)],
        LanguageType::Idris => seq![("{-"@, "-}"@)],
        LanguageType::Isabelle => seq![("{*"@, "*}"@), ("(*"@, "*)"@), ("‹"@, "›"@), ("\\<open>"@, "\\<close>"@)],
        LanguageType::Jai => seq![("/*"@, "*/"@)],
        LanguageType::Java => seq![("/*"@, "*/"@)],
        LanguageType::JavaScript => seq![("/*"@, "*/"@)],
        LanguageType::Jsonnet => seq![("/*"@, "*/"@)],
        LanguageType::Jsx => seq![("/*"@, "*/"@)],
        LanguageType::Julia => seq![("#="@, "=#"@)],
        LanguageType::Julius => seq![("/*"@, "*/"@)],
        LanguageType::Kotlin => seq![("/*"@, "*/"@)],
        LanguageType::Lean => seq![("/-"@, "-/"@)],
        LanguageType::Less => seq![("/*"@, "*/"@)],
        LanguageType::Liquid => seq![("<!--"@, "-->"@), ("{% comment %}"@, "{% endcomment %}"@)],
        LanguageType::LinkerScript => seq![("/*"@, "*/"@)],
        LanguageType::Lisp => seq![("#|"@, "|#"@)],
        LanguageType::LiveScript => seq![("/*"@, "*/"@)],
        LanguageType::Logtalk => seq![("/*"@, "*/"@)],
        LanguageType::Lua => seq![("--[["@, "]]"@)],
        LanguageType::Lucius => seq![("/*"@, "*/"@)],
        LanguageType::Madlang => seq![("{#"@, "#}"@)],
        LanguageType::Mustache => seq![("{{!"@, "}}"@)],
        LanguageType::Nix => seq![("/*"@, "*/"@)],
        LanguageType::ObjectiveC => seq![("/*"@, "*/"@)],
        LanguageType::ObjectiveCpp => seq![("/*"@, "*/"@)],
        LanguageType::OCaml => seq![("(*"@, "*)"@)],
        LanguageType::Odin => seq![("/*"@, "*/"@)],
        LanguageType::Oz => seq![("/*"@, "*/"@)],
        LanguageType::Pascal => seq![("{"@, "}"@), ("(*"@, "*)"@)],
        LanguageType::Perl => seq![("=pod"@, "=cut"@)],
        LanguageType::Perl6 => seq![("=begin"@, "=end"@)],
        LanguageType::NotQuitePerl => seq![("=begin"@, "=end"@)],
        LanguageType::Php => seq![("/*"@, "*/"@)],
        LanguageType::Polly => seq![("<!--"@, "-->"@)],
        LanguageType::Pony => seq![("/*"@, "*/"@)],
        LanguageType::PostCss => seq![("/*"@, "*/"@)],
        LanguageType::Processing => seq![("/*"@, "*/"@)],
        LanguageType::Prolog => seq![("/*"@, "*/"@)],
        LanguageType::PowerShell => seq![("<#"@, "#>"@)],
        LanguageType::PSL => seq![("/*"@, "*/"@)],
        LanguageType::PureScript => seq![("{-"@, "-}"@)],
        LanguageType::Qcl => seq![("/*"@, "*/"@)],
        LanguageType::Qml => seq![("/*"@, "*/"@)],
        LanguageType::Racket => seq![("#|"@, "|#"@)],
        LanguageType::Rakefile => seq![("=begin"@, "=end"@)],
        LanguageType::Razor => seq![("<!--"@, "-->"@), ("@*"@, "*@"@)],
        LanguageType::RON => seq![("/*"@, "*/"@)],
        LanguageType::Ruby => seq![("=begin"@, "=end"@)],
        LanguageType::RubyHtml => seq![("<!--"@, "-->"@)],
        LanguageType::Rust => seq![("/*"@, "*/"@)],
        LanguageType::Sass => seq![("/*"@, "*/"@)],
        LanguageType::Scala => seq![("/*"@, "*/"@)],
        LanguageType::Scheme => seq![("#|"@, "|#"@)],
        LanguageType::Sml => seq![("(*"@, "*)"@)],
        LanguageType::Solidity => seq![("/*"@, "*/"@)],
        LanguageType::SpecmanE => seq![("'>"@, "<'"@)],
        LanguageType::Sql => seq![("/*"@, "*/"@)],
        LanguageType::Stan => seq![("/*"@, "*/"@)],
        LanguageType::Stratego => seq![("/*"@, "*/"@)],
        LanguageType::Stylus => seq![("/*"@, "*/"@)],
        LanguageType::Svelte => seq![("<!--"@, "-->"@)],
        LanguageType::Svg => seq![("<!--"@, "-->"@)],
        LanguageType::Swift => seq![("/*"@, "*/"@)],
        LanguageType::Swig => seq![("/*"@, "*/"@)],
        LanguageType::SystemVerilog => seq![("/*"@, "*/"@)],
        LanguageType::Tera => seq![("<!--"@, "-->"@), ("{#"@, "#}"@)],
        LanguageType::Thrift => seq![("/*"@, "*/"@)],
        LanguageType::Tsx => seq![("/*"@, "*/"@)],
        LanguageType::Ttcn => seq![("/*"@, "*/"@)],
        LanguageType::Twig => seq![("<!--"@, "-->"@), ("{#"@, "#}"@)],
        LanguageType::TypeScript => seq![("/*"@, "*/"@)],
        LanguageType::UnrealScript => seq![("/*"@, "*/"@)],
        LanguageType::UnrealShader => seq![("/*"@, "*/"@)],
        LanguageType::UnrealShaderHeader => seq![("/*"@, "*/"@)],
        LanguageType::UrWeb => seq![("(*"@, "*)"@)],
        LanguageType::Vala => seq![("/*"@, "*/"@)],
        LanguageType::Velocity => seq![("#*"@, "*#"@)],
        LanguageType::Verilog => seq![("/*"@, "*/"@)],
        LanguageType::VisualStudioProject => seq![("<!--"@, "-->"@)],
        LanguageType::Vue => seq![("<!--"@, "-->"@), ("/*"@, "*/"@)],
        LanguageType::Wolfram => seq![("(*"@, "*)"@)],
        LanguageType::Xaml => seq![("<!--"@, "-->"@)],
        LanguageType::Xml => seq![("<!--"@, "-->"@)],
        LanguageType::XSL => seq![("<!--"@, "-->"@)],
        LanguageType::MsBuild => seq![("<!--"@, "-->"@)],
        LanguageType::Xtend => seq![("/*"@, "*/"@)],
        _ => Seq::<(Seq<char>, Seq<char>)>::empty(),
    }
}

/// The delimiter pairs of explicitly nestable comments.
pub open spec fn nested_comments_spec(t: LanguageType) -> Seq<(Seq<char>, Seq<char>)> {
    match t {
        LanguageType::D => seq![("/+"@, "+/"@)],
        _ => Seq::<(Seq<char>, Seq<char>)>::empty(),
    }
}

/// The delimiter pairs of string literals, longest delimiter first.
pub open spec fn quotes_spec(t: LanguageType) -> Seq<(Seq<char>, Seq<char>)> {
    match t {
        LanguageType::ActionScript => seq![("\""@, "\""@)],
        LanguageType::Arduino => seq![("\""@, "\""@)],
        LanguageType::Asn1 => seq![("\""@, "\""@), ("'"@, "'"@)],
        LanguageType::Assembly => seq![("\""@, "\""@), ("'"@, "'"@)],
        LanguageType::AssemblyGAS => seq![("\""@, "\""@)],
        LanguageType::Sh => seq![("\""@, "\""@), ("'"@, "'"@)],
        LanguageType::Bash => seq![("\""@, "\""@), ("'"@, "'"@)],
        LanguageType::BrightScript => seq![("\""@, "\""@)],
        LanguageType::Elvish => seq![("\""@, "\""@), ("'"@, "'"@)],
        LanguageType::Fish => seq![("\""@, "\""@), ("'"@, "'"@)],
        LanguageType::Bean => seq![("\""@, "\""@)],
        LanguageType::C => seq![("\""@, "\""@)],
        LanguageType::Cassius => seq![("\""@, "\""@), ("'"@, "'"@)],
        LanguageType::Ceylon => seq![("\"\"\""@, "\"\"\""@), ("\""@, "\""@)],
        LanguageType::CHeader => seq![("\""@, "\""@)],
        LanguageType::Clojure => seq![("\""@, "\""@)],
        LanguageType::ClojureScript => seq![("\""@, "\""@)],
        LanguageType::ClojureC => seq![("\""@, "\""@)],
        LanguageType::CMake => seq![("\""@, "\""@)],
        LanguageType::CodeQL => seq![("\""@, "\""@)],
        LanguageType::CoffeeScript => seq![("\""@, "\""@), ("'"@, "'"@)],
        LanguageType::ColdFusion => seq![("\""@, "\""@), ("'"@, "'"@)],
        LanguageType::ColdFusionScript => seq![("\""@, "\""@)],
        LanguageType::Coq => seq![("\""@, "\""@)],
        LanguageType::Cpp => seq![("\""@, "\""@)],
        LanguageType::CppHeader => seq![("\""@, "\""@)],
        LanguageType::Crystal => seq![("\""@, "\""@), ("'"@, "'"@)],
        LanguageType::CSharp => seq![("\""@, "\""@)],
        LanguageType::Css => seq![("\""@, "\""@), ("'"@, "'"@)],
        LanguageType::D => seq![("\""@, "\""@), ("'"@, "'"@)],
        LanguageType::Dart => seq![("\"\"\""@, "\"\"\""@), ("'''"@, "'''"@), ("\""@, "\""@), ("'"@, "'"@)],
        LanguageType::DeviceTree => seq![("\""@, "\""@)],
        LanguageType::Dhall => seq![("\""@, "\""@), ("''"@, "''"@)],
        LanguageType::DreamMaker => seq![("{\""@, "\"}"@), ("\""@, "\""@), ("'"@, "'"@)],
        LanguageType::Dockerfile => seq![("\""@, "\""@), ("'"@, "'"@)],
        LanguageType::DotNetResource => seq![("\""@, "\""@)],
        LanguageType::Elixir => seq![("\"\"\""@, "\"\"\""@), ("'''"@, "'''"@), ("\""@, "\""@), ("'"@, "'"@)],
        LanguageType::Emojicode => seq![("❌🔤"@, "❌🔤"@)],
        LanguageType::FlatBuffers => seq![("\""@, "\""@)],
        LanguageType::Fstar => seq![("\""@, "\""@)],
        LanguageType::FortranLegacy => seq![("\""@, "\""@), ("'"@, "'"@)],
        LanguageType::FortranModern => seq![("\""@, "\""@)],
        LanguageType::FSharp => seq![("\""@, "\""@)],
        LanguageType::GdScript => seq![("\"\"\""@, "\"\"\""@), ("\""@, "\""@), ("'"@, "'"@)],
        LanguageType::Gleam => seq![("\""@, "\""@)],
        LanguageType::Glsl => seq![("\""@, "\""@)],
        LanguageType::Go => seq![("\""@, "\""@)],
        LanguageType::Gohtml => seq![("\""@, "\""@), ("'"@, "'"@)],
        LanguageType::Graphql => seq![("\"\"\""@, "\"\"\""@), ("\""@, "\""@)],
        LanguageType::Groovy => seq![("\""@, "\""@)],
        LanguageType::Gwion => seq![("\""@, "\""@)],
        LanguageType::Handlebars => seq![("\""@, "\""@), ("'"@, "'"@)],
        LanguageType::Hcl => seq![("\""@, "\""@)],
        LanguageType::Headache => seq![("\""@, "\""@)],
        LanguageType::Hlsl => seq![("\""@, "\""@)],
        LanguageType::HolyC => seq![("\""@, "\""@)],
        LanguageType::Html => seq![("\""@, "\""@), ("'"@, "'"@)],
        LanguageType::Hamlet => seq![("\""@, "\""@), ("'"@, "'"@)],
        LanguageType::Haxe => seq![("\""@, "\""@), ("'"@, "'"@)],
        LanguageType::Idris => seq![("\"\"\""@, "\"\"\""@), ("\""@, "\""@)],
        LanguageType::Isabelle => seq![("''"@, "''"@)],
        LanguageType::Jai => seq![("\""@, "\""@)],
        LanguageType::Java => seq![("\""@, "\""@)],
        LanguageType::JavaScript => seq![("\""@, "\""@), ("'"@, "'"@), ("`"@, "`"@)],
        LanguageType::Jsonnet => seq![("\""@, "\""@), ("'"@, "'"@)],
        LanguageType::Jsx => seq![("\""@, "\""@), ("'"@, "'"@), ("`"@, "`"@)],
        LanguageType::Julia => seq![("\"\"\""@, "\"\"\""@), ("\""@, "\""@)],
        LanguageType::Julius => seq![("\""@, "\""@), ("'"@, "'"@), ("`"@, "`"@)],
        LanguageType::K => seq![("\""@, "\""@)],
        LanguageType::KakouneScript => seq![("\""@, "\""@), ("'"@, "'"@)],
        LanguageType::Kotlin => seq![("\"\"\""@, "\"\"\""@), ("\""@, "\""@)],
        LanguageType::Less => seq![("\""@, "\""@), ("'"@, "'"@)],
        LanguageType::Liquid => seq![("\""@, "\""@), ("'"@, "'"@)],
        LanguageType::LinkerScript => seq![("\""@, "\""@)],
        LanguageType::LiveScript => seq![("\""@, "\""@), ("'"@, "'"@)],
        LanguageType::LLVM => seq![("\""@, "\""@), ("'"@, "'"@)],
        LanguageType::Logtalk => seq![("\""@, "\""@)],
        LanguageType::Lua => seq![("\""@, "\""@), ("'"@, "'"@)],
        LanguageType::Lucius => seq![("\""@, "\""@), ("'"@, "'"@)],
        LanguageType::MoonScript => seq![("\""@, "\""@), ("'"@, "'"@)],
        LanguageType::Meson => seq![("'''"@, "'''"@), ("'"@, "'"@)],
        LanguageType::Mustache => seq![("\""@, "\""@), ("'"@, "'"@)],
        LanguageType::Nim => seq![("\"\"\""@, "\"\"\""@), ("\""@, "\""@)],
        LanguageType::Nix => seq![("\""@, "\""@)],
        LanguageType::ObjectiveC => seq![("\""@, "\""@)],
        LanguageType::ObjectiveCpp => seq![("\""@, "\""@)],
        LanguageType::OCaml => seq![("\""@, "\""@)],
        LanguageType::Odin => seq![("\""@, "\""@), ("'"@, "'"@)],
        LanguageType::Oz => seq![("\""@, "\""@)],
        LanguageType::Pan => seq![("\""@, "\""@), ("'"@, "'"@)],
        LanguageType::Pascal => seq![("'"@, "'"@)],
        LanguageType::Perl => seq![("\""@, "\""@), ("'"@, "'"@)],
        LanguageType::Perl6 => seq![("\""@, "\""@), ("'"@, "'"@)],
        LanguageType::Pest => seq![("\""@, "\""@), ("'"@, "'"@)],
        LanguageType::NotQuitePerl => seq![("\""@, "\""@), ("'"@, "'"@)],
        LanguageType::Php => seq![("\""@, "\""@), ("'"@, "'"@)],
        LanguageType::Polly => seq![("\""@, "\""@), ("'"@, "'"@)],
        LanguageType::Pony => seq![("\""@, "\""@)],
        LanguageType::PostCss => seq![("\""@, "\""@), ("'"@, "'"@)],
        LanguageType::Processing => seq![("\""@, "\""@)],
        LanguageType::Prolog => seq![("\""@, "\""@)],
        LanguageType::PowerShell => seq![("\"@"@, "@\""@), ("\""@, "\""@), ("@'"@, "'@"@), ("'"@, "'"@)],
        LanguageType::PSL => seq![("\""@, "\""@)],
        LanguageType::Pug => seq![("#{\""@, "\"}"@), ("#{'"@, "'}"@), ("#{`"@, "`}"@)],
        LanguageType::Python => seq![("\""@, "\""@), ("'"@, "'"@)],
        LanguageType::Qcl => seq![("\""@, "\""@)],
        LanguageType::Q => seq![("\""@, "\""@)],
        LanguageType::Qml => seq![("\""@, "\""@), ("'"@, "'"@)],
        LanguageType::Rakefile => seq![("\""@, "\""@), ("'"@, "'"@)],
        LanguageType::Renpy => seq![("\""@, "\""@), ("'"@, "'"@), ("`"@, "`"@)],
        LanguageType::RON => seq![("\""@, "\""@)],
        LanguageType::Ruby => seq![("\""@, "\""@), ("'"@, "'"@)],
        LanguageType::RubyHtml => seq![("\""@, "\""@), ("'"@, "'"@)],
        LanguageType::Rust => seq![("#\""@, "\"#"@), ("\""@, "\""@)],
        LanguageType::Sass => seq![("\""@, "\""@), ("'"@, "'"@)],
        LanguageType::Scala => seq![("\""@, "\""@)],
        LanguageType::Scons => seq![("\"\"\""@, "\"\"\""@), ("'''"@, "'''"@), ("\""@, "\""@), ("'"@, "'"@)],
        LanguageType::Sml => seq![("\""@, "\""@)],
        LanguageType::Solidity => seq![("\""@, "\""@)],
        LanguageType::Sql => seq![("'"@, "'"@)],
        LanguageType::Stan => seq![("\""@, "\""@)],
        LanguageType::Stratego => seq![("\""@, "\""@), ("$["@, "]"@), ("$<"@, ">"@), ("${"@, "}"@)],
        LanguageType::Stylus => seq![("\""@, "\""@), ("'"@, "'"@)],
        LanguageType::Svelte => seq![("\""@, "\""@), ("'"@, "'"@)],
        LanguageType::Svg => seq![("\""@, "\""@), ("'"@, "'"@)],
        LanguageType::Swift => seq![("\""@, "\""@)],
        LanguageType::Swig => seq![("\""@, "\""@)],
        LanguageType::SystemVerilog => seq![("\""@, "\""@)],
        LanguageType::Tcl => seq![("\""@, "\""@), ("'"@, "'"@)],
        LanguageType::Tera => seq![("\""@, "\""@), ("'"@, "'"@)],
        LanguageType::Thrift => seq![("\""@, "\""@), ("'"@, "'"@)],
        LanguageType::Toml => seq![("\"\"\""@, "\"\"\""@), ("'''"@, "'''"@), ("\""@, "\""@), ("'"@, "'"@)],
        LanguageType::Tsx => seq![("\""@, "\""@), ("'"@, "'"@), ("`"@, "`"@)],
        LanguageType::Ttcn => seq![("\""@, "\""@)],
        LanguageType::Twig => seq![("\""@, "\""@), ("'"@, "'"@)],
        LanguageType::TypeScript => seq![("\""@, "\""@), ("'"@, "'"@), ("`"@, "`"@)],
        LanguageType::UnrealScript => seq![("\""@, "\""@)],
        LanguageType::UnrealShader => seq![("\""@, "\""@)],
        LanguageType::UnrealShaderHeader => seq![("\""@, "\""@)],
        LanguageType::UrWeb => seq![("\""@, "\""@)],
        LanguageType::Vala => seq![("\""@, "\""@)],
        LanguageType::Velocity => seq![("\""@, "\""@), ("'"@, "'"@)],
        LanguageType::Verilog => seq![("\""@, "\""@)],
        LanguageType::VisualBasic => seq![("\""@, "\""@)],
        LanguageType::VisualStudioProject => seq![("\""@, "\""@), ("'"@, "'"@)],
        LanguageType::VimScript => seq![("\""@, "\""@), ("'"@, "'"@)],
        LanguageType::Vue => seq![("\""@, "\""@), ("'"@, "'"@), ("`"@, "`"@)],
        LanguageType::WebAssembly => seq![("\""@, "\""@), ("'"@, "'"@)],
        LanguageType::Wolfram => seq![("\""@, "\""@)],
        LanguageType::Xaml => seq![("\""@, "\""@), ("'"@, "'"@)],
        LanguageType::XcodeConfig => seq![("\""@, "\""@), ("'"@, "'"@)],
        LanguageType::Xml => seq![("\""@, "\""@), ("'"@, "'"@)],
        LanguageType::XSL => seq![("\""@, "\""@), ("'"@, "'"@)],
        LanguageType::MsBuild => seq![("\""@, "\""@), ("'"@, "'"@)],
        LanguageType::Xtend => seq![("'''"@, "'''"@), ("\""@, "\""@), ("'"@, "'"@)],
        LanguageType::Yaml => seq![("\""@, "\""@), ("'"@, "'"@)],
        LanguageType::Zig => seq![("\""@, "\""@)],
        LanguageType::Zsh => seq![("\""@, "\""@), ("'"@, "'"@)],
        _ => Seq::<(Seq<char>, Seq<char>)>::empty(),
    }
}

/// The delimiter pairs of verbatim string literals, longest delimiter first.
pub open spec fn verbatim_quotes_spec(t: LanguageType) -> Seq<(Seq<char>, Seq<char>)> {
    match t {
        LanguageType::Cpp => seq![("R\"("@, ")\""@)],
        LanguageType::CSharp => seq![("@\""@, "\""@)],
        LanguageType::FSharp => seq![("@\""@, "\""@)],
        LanguageType::Rust => seq![("r##\""@, "\"##"@), ("r#\""@, "\"#"@)],
        _ => Seq::<(Seq<char>, Seq<char>)>::empty(),
    }
}

/// The delimiter pairs of documentation string literals.
pub open spec fn doc_quotes_spec(t: LanguageType) -> Seq<(Seq<char>, Seq<char>)> {
    match t {
        LanguageType::Pony => seq![("\"\"\""@, "\"\"\""@)],
        LanguageType::Python => seq![("\"\"\""@, "\"\"\""@), ("'''"@, "'''"@)],
        _ => Seq::<(Seq<char>, Seq<char>)>::empty(),
    }
}

/// The shebang interpreter lines that identify the language.
pub open spec fn shebangs_spec(t: LanguageType) -> Seq<Seq<char>> {
    match t {
        LanguageType::Sh => seq!["#!/bin/sh"@],
        LanguageType::Bash => seq!["#!/bin/bash"@],
        LanguageType::Fish => seq!["#!/bin/fish"@],
        LanguageType::Crystal => seq!["#!/usr/bin/crystal"@],
        LanguageType::CShell => seq!["#!/bin/csh"@],
        LanguageType::Perl => seq!["#!/usr/bin/perl"@],
        LanguageType::Zsh => seq!["#!/bin/zsh"@],
        _ => Seq::<Seq<char>>::empty(),
    }
}

/// The syntax markers whose presence makes closer analysis of a file worthwhile: string and documentation-string openers, comment openers, and per-language cues.
pub open spec fn important_syntax_spec(t: LanguageType) -> Seq<Seq<char>> {
    match t {
        LanguageType::ActionScript => seq!["\""@, "/*"@],
        LanguageType::Agda => seq!["{-"@],
        LanguageType::Alloy => seq!["/*"@],
        LanguageType::Arduino => seq!["\""@, "/*"@],
        LanguageType::AsciiDoc => seq!["////"@],
        LanguageType::Asn1 => seq!["\""@, "'"@, "/*"@],
        LanguageType::Assembly => seq!["\""@, "'"@],
        LanguageType::AssemblyGAS => seq!["\""@, "/*"@],
        LanguageType::AspNet => seq!["<!--"@, "<%--"@],
        LanguageType::AutoHotKey => seq!["/*"@],
        LanguageType::Sh => seq!["\""@, "'"@],
        LanguageType::Bash => seq!["\""@, "'"@],
        LanguageType::BrightScript => seq!["\""@],
        LanguageType::Elvish => seq!["\""@, "'"@],
        LanguageType::Fish => seq!["\""@, "'"@],
        LanguageType::Bean => seq!["\""@],
        LanguageType::C => seq!["\""@, "/*"@],
        LanguageType::Cabal => seq!["{-"@],
        LanguageType::Cassius => seq!["\""@, "'"@, "/*"@],
        LanguageType::Ceylon => seq!["\"\"\""@, "\""@, "/*"@],
        LanguageType::CHeader => seq!["\""@, "/*"@],
        LanguageType::Clojure => seq!["\""@],
        LanguageType::ClojureScript => seq!["\""@],
        LanguageType::ClojureC => seq!["\""@],
        LanguageType::CMake => seq!["\""@],
        LanguageType::CodeQL => seq!["\""@, "/*"@],
        LanguageType::CoffeeScript => seq!["\""@, "'"@, "###"@],
        LanguageType::ColdFusion => seq!["\""@, "'"@, "<!---"@],
        LanguageType::ColdFusionScript => seq!["\""@, "/*"@],
        LanguageType::Coq => seq!["\""@, "(*"@],
        LanguageType::Cpp => seq!["\""@, "/*"@],
        LanguageType::CppHeader => seq!["\""@, "/*"@],
        LanguageType::Crystal => seq!["\""@, "'"@],
        LanguageType::CSharp => seq!["\""@, "/*"@],
        LanguageType::Css => seq!["\""@, "'"@, "/*"@],
        LanguageType::D => seq!["\""@, "'"@, "/*"@, "/+"@],
        LanguageType::Daml => seq!["{-"@],
        LanguageType::Dart => seq!["\"\"\""@, "'''"@, "\""@, "'"@, "/*"@],
        LanguageType::DeviceTree => seq!["\""@, "/*"@],
        LanguageType::Dhall => seq!["\""@, "''"@, "{-"@],
        LanguageType::DreamMaker => seq!["{\""@, "\""@, "'"@, "/*"@],
        LanguageType::Dockerfile => seq!["\""@, "'"@],
        LanguageType::DotNetResource => seq!["\""@, "<!--"@],
        LanguageType::Dust => seq!["{!"@],
        LanguageType::Elixir => seq!["\"\"\""@, "'''"@, "\""@, "'"@],
        LanguageType::Elm => seq!["{-"@],
        LanguageType::Emojicode => seq!["❌🔤"@, "💭🔜"@, "📗"@, "📘"@],
        LanguageType::FlatBuffers => seq!["\""@, "/*"@],
        LanguageType::Fstar => seq!["\""@, "(*"@],
        LanguageType::Forth => seq!["( "@],
        LanguageType::FortranLegacy => seq!["\""@, "'"@],
        LanguageType::FortranModern => seq!["\""@],
        LanguageType::FreeMarker => seq!["<#--"@],
        LanguageType::FSharp => seq!["\""@, "(*"@],
        LanguageType::GdScript => seq!["\"\"\""@, "\""@, "'"@],
        LanguageType::Gleam => seq!["\""@],
        LanguageType::Glsl => seq!["\""@, "/*"@],
        LanguageType::Go => seq!["\""@, "/*"@],
        LanguageType::Gohtml => seq!["\""@, "'"@, "<!--"@, "{{/*"@],
        LanguageType::Graphql => seq!["\"\"\""@, "\""@],
        LanguageType::Groovy => seq!["\""@, "/*"@],
        LanguageType::Gwion => seq!["\""@],
        LanguageType::Handlebars => seq!["\""@, "'"@, "<!--"@, "{{!"@],
        LanguageType::Haskell => seq!["{-"@],
        LanguageType::Hcl => seq!["\""@, "/*"@],
        LanguageType::Headache => seq!["\""@, "/*"@],
        LanguageType::Hlsl => seq!["\""@, "/*"@],
        LanguageType::HolyC => seq!["\""@, "/*"@],
        LanguageType::Html => seq!["\""@, "'"@, "<!--"@, "<script"@, "<style"@],
        LanguageType::Hamlet => seq!["\""@, "'"@, "<!--"@],
        LanguageType::Haxe => seq!["\""@, "'"@, "/*"@],
        LanguageType::Idris => seq!["\"\"\""@, "\""@, "{-"@],
        LanguageType::Isabelle => seq!["''"@, "{*"@, "(*"@, "‹"@, "\\<open>"@],
        LanguageType::Jai => seq!["\""@, "/*"@],
        LanguageType::Java => seq!["\""@, "/*"@],
        LanguageType::JavaScript => seq!["\""@, "'"@, "`"@, "/*"@],
        LanguageType::Jsonnet => seq!["\""@, "'"@, "/*"@],
        LanguageType::Jsx => seq!["\""@, "'"@, "`"@, "/*"@],
        LanguageType::Julia => seq!["\"\"\""@, "\""@, "#="@],
        LanguageType::Julius => seq!["\""@, "'"@, "`"@, "/*"@],
        LanguageType::K => seq!["\""@],
        LanguageType::KakouneScript => seq!["\""@, "'"@],
        LanguageType::Kotlin => seq!["\"\"\""@, "\""@, "/*"@],
        LanguageType::Lean => seq!["/-"@],
        LanguageType::Less => seq!["\""@, "'"@, "/*"@],
        LanguageType::Liquid => seq!["\""@, "'"@, "<!--"@, "{% comment %}"@],
        LanguageType::LinkerScript => seq!["\""@, "/*"@],
        LanguageType::Lisp => seq!["#|"@],
        LanguageType::LiveScript => seq!["\""@, "'"@, "/*"@],
        LanguageType::LLVM => seq!["\""@, "'"@],
        LanguageType::Logtalk => seq!["\""@, "/*"@],
        LanguageType::Lua => seq!["\""@, "'"@, "--[["@],
        LanguageType::Lucius => seq!["\""@, "'"@, "/*"@],
        LanguageType::Madlang => seq!["{#"@],
        LanguageType::Markdown => seq!["```"@],
        LanguageType::MoonScript => seq!["\""@, "'"@],
        LanguageType::Meson => seq!["'''"@, "'"@],
        LanguageType::Mustache => seq!["\""@, "'"@, "{{!"@],
        LanguageType::Nim => seq!["\"\"\""@, "\""@],
        LanguageType::Nix => seq!["\""@, "/*"@],
        LanguageType::ObjectiveC => seq!["\""@, "/*"@],
        LanguageType::ObjectiveCpp => seq!["\""@, "/*"@],
        LanguageType::OCaml => seq!["\""@, "(*"@],
        LanguageType::Odin => seq!["\""@, "'"@, "/*"@],
        LanguageType::Oz => seq!["\""@, "/*"@],
        LanguageType::Pan => seq!["\""@, "'"@],
        LanguageType::Pascal => seq!["'"@, "{"@, "(*"@],
        LanguageType::Perl => seq!["\""@, "'"@, "=pod"@],
        LanguageType::Perl6 => seq!["\""@, "'"@, "=begin"@],
        LanguageType::Pest => seq!["\""@, "'"@],
        LanguageType::NotQuitePerl => seq!["\""@, "'"@, "=begin"@],
        LanguageType::Php => seq!["\""@, "'"@, "/*"@],
        LanguageType::Polly => seq!["\""@, "'"@, "<!--"@],
        LanguageType::Pony => seq!["\""@, "\"\"\""@, "/*"@],
        LanguageType::PostCss => seq!["\""@, "'"@, "/*"@],
        LanguageType::Processing => seq!["\""@, "/*"@],
        LanguageType::Prolog => seq!["\""@, "/*"@],
        LanguageType::PowerShell => seq!["\"@"@, "\""@, "@'"@, "'"@, "<#"@],
        LanguageType::PSL => seq!["\""@, "/*"@],
        LanguageType::Pug => seq!["#{\""@, "#{'"@, "#{`"@],
        LanguageType::PureScript => seq!["{-"@],
        LanguageType::Python => seq!["\""@, "'"@, "\"\"\""@, "'''"@],
        LanguageType::Qcl => seq!["\""@, "/*"@],
        LanguageType::Q => seq!["\""@],
        LanguageType::Qml => seq!["\""@, "'"@, "/*"@],
        LanguageType::Racket => seq!["#|"@],
        LanguageType::Rakefile => seq!["\""@, "'"@, "=begin"@],
        LanguageType::Razor => seq!["<!--"@, "@*"@],
        LanguageType::Renpy => seq!["\""@, "'"@, "`"@],
        LanguageType::RON => seq!["\""@, "/*"@],
        LanguageType::Ruby => seq!["\""@, "'"@, "=begin"@],
        LanguageType::RubyHtml => seq!["\""@, "'"@, "<!--"@, "<script"@, "<style"@],
        LanguageType::Rust => seq!["#\""@, "\""@, "/*"@, "///"@, "//!"@],
        LanguageType::Sass => seq!["\""@, "'"@, "/*"@],
        LanguageType::Scala => seq!["\""@, "/*"@],
        LanguageType::Scheme => seq!["#|"@],
        LanguageType::Scons => seq!["\"\"\""@, "'''"@, "\""@, "'"@],
        LanguageType::Sml => seq!["\""@, "(*"@],
        LanguageType::Solidity => seq!["\""@, "/*"@],
        LanguageType::SpecmanE => seq!["'>"@],
        LanguageType::Sql => seq!["'"@, "/*"@],
        LanguageType::Stan => seq!["\""@, "/*"@],
        LanguageType::Stratego => seq!["\""@, "$["@, "$<"@, "${"@, "/*"@],
        LanguageType::Stylus => seq!["\""@, "'"@, "/*"@],
        LanguageType::Svelte => seq!["\""@, "'"@, "<!--"@, "<script"@, "<style"@],
        LanguageType::Svg => seq!["\""@, "'"@, "<!--"@],
        LanguageType::Swift => seq!["\""@, "/*"@],
        LanguageType::Swig => seq!["\""@, "/*"@],
        LanguageType::SystemVerilog => seq!["\""@, "/*"@],
        LanguageType::Tcl => seq!["\""@, "'"@],
        LanguageType::Tera => seq!["\""@, "'"@, "<!--"@, "{#"@],
        LanguageType::Thrift => seq!["\""@, "'"@, "/*"@],
        LanguageType::Toml => seq!["\"\"\""@, "'''"@, "\""@, "'"@],
        LanguageType::Tsx => seq!["\""@, "'"@, "`"@, "/*"@],
        LanguageType::Ttcn => seq!["\""@, "/*"@],
        LanguageType::Twig => seq!["\""@, "'"@, "<!--"@, "{#"@],
        LanguageType::TypeScript => seq!["\""@, "'"@, "`"@, "/*"@],
        LanguageType::UnrealScript => seq!["\""@, "/*"@],
        LanguageType::UnrealShader => seq!["\""@, "/*"@],
        LanguageType::UnrealShaderHeader => seq!["\""@, "/*"@],
        LanguageType::UnrealDeveloperMarkdown => seq!["```"@],
        LanguageType::UrWeb => seq!["\""@, "(*"@],
        LanguageType::Vala => seq!["\""@, "/*"@],
        LanguageType::Velocity => seq!["\""@, "'"@, "#*"@],
        LanguageType::Verilog => seq!["\""@, "/*"@],
        LanguageType::VisualBasic => seq!["\""@],
        LanguageType::VisualStudioProject => seq!["\""@, "'"@, "<!--"@],
        LanguageType::VimScript => seq!["\""@, "'"@],
        LanguageType::Vue => seq!["\""@, "'"@, "`"@, "<!--"@, "/*"@, "<script"@, "<style"@, "<template"@],
        LanguageType::WebAssembly => seq!["\""@, "'"@],
        LanguageType::Wolfram => seq!["\""@, "(*"@],
        LanguageType::Xaml => seq!["\""@, "'"@, "<!--"@],
        LanguageType::XcodeConfig => seq!["\""@, "'"@],
        LanguageType::Xml => seq!["\""@, "'"@, "<!--"@],
        LanguageType::XSL => seq!["\""@, "'"@, "<!--"@],
        LanguageType::MsBuild => seq!["\""@, "'"@, "<!--"@],
        LanguageType::Xtend => seq!["'''"@, "\""@, "'"@, "/*"@],
        LanguageType::Yaml => seq!["\""@, "'"@],
        LanguageType::Zig => seq!["\""@],
        LanguageType::Zsh => seq!["\""@, "'"@],
        _ => Seq::<Seq<char>>::empty(),
    }
}

impl LanguageType {
    /// Returns whether the language is literate: prose is its default content and code blocks are the exception.
    pub fn is_literate(&self) -> (r: bool)
        ensures
            r == is_literate_spec(*self),
    {
        match self {
            LanguageType::Markdown => true,
            LanguageType::Text => true,
            _ => false,
        }
    }

    /// Returns the markers that open a comment running to the end of the line.
    pub fn line_comments(&self) -> (r: Vec<&'static str>)
        ensures
            r@.len() == line_comments_spec(*self).len(),
            forall|i: int|
                0 <= i < r@.len() ==> (#[trigger] r@[i])@ == line_comments_spec(*self)[i],
    {
        match self {
            LanguageType::Abap => vec!["*", "\""],
            LanguageType::ABNF => vec![";"],
            LanguageType::ActionScript => vec!["//"],
            LanguageType::Ada => vec!["--"],
            LanguageType::Agda => vec!["--"],
            LanguageType::Alloy => vec!["--", "//"],
            LanguageType::Arduino => vec!["//"],
            LanguageType::AsciiDoc => vec!["//"],
            LanguageType::Asn1 => vec!["--"],
            LanguageType::Assembly => vec![";"],
            LanguageType::AssemblyGAS => vec!["//"],
            LanguageType::Asp => vec!["'", "REM"],
            LanguageType::Autoconf => vec!["#", "dnl"],
            LanguageType::AutoHotKey => vec![";"],
            LanguageType::Automake => vec!["#"],
            LanguageType::Sh => vec!["#"],
            LanguageType::Bash => vec!["#"],
            LanguageType::BrightScript => vec!["'", "REM"],
            LanguageType::Elvish => vec!["#"],
            LanguageType::Fish => vec!["#"],
            LanguageType::Batch => vec!["REM", "::"],
            LanguageType::Bean => vec![";"],
            LanguageType::C => vec!["//"],
            LanguageType::Cabal => vec!["--"],
            LanguageType::Cassius => vec!["//"],
            LanguageType::Ceylon => vec!["//"],
            LanguageType::CHeader => vec!["//"],
            LanguageType::Clojure => vec![";"],
            LanguageType::ClojureScript => vec![";"],
            LanguageType::ClojureC => vec![";"],
            LanguageType::CMake => vec!["#"],
            LanguageType::Cobol => vec!["*"],
            LanguageType::CodeQL => vec!["//"],
            LanguageType::CoffeeScript => vec!["#"],
            LanguageType::Cogent => vec!["--"],
            LanguageType::ColdFusionScript => vec!["//"],
            LanguageType::Cpp => vec!["//"],
            LanguageType::CppHeader => vec!["//"],
            LanguageType::Crystal => vec!["#"],
            LanguageType::CSharp => vec!["//"],
            LanguageType::CShell => vec!["#"],
            LanguageType::Css => vec!["//"],
            LanguageType::D => vec!["//"],
            LanguageType::Daml => vec!["-- "],
            LanguageType::Dart => vec!["//"],
            LanguageType::DeviceTree => vec!["//"],
            LanguageType::Dhall => vec!["--"],
            LanguageType::DreamMaker => vec!["//"],
            LanguageType::Dockerfile => vec!["#"],
            LanguageType::Edn => vec![";"],
            LanguageType::Elisp => vec![";"],
            LanguageType::Elixir => vec!["#"],
            LanguageType::Elm => vec!["--"],
            LanguageType::EmacsDevEnv => vec![";"],
            LanguageType::Emojicode => vec!["💭"],
            LanguageType::Erlang => vec!["%"],
            LanguageType::FlatBuffers => vec!["//"],
            LanguageType::Fstar => vec!["//"],
            LanguageType::Forth => vec!["\\"],
            LanguageType::FortranLegacy => vec!["c", "C", "!", "*"],
            LanguageType::FortranModern => vec!["!"],
            LanguageType::FSharp => vec!["//"],
            LanguageType::Futhark => vec!["--"],
            LanguageType::GDB => vec!["#"],
            LanguageType::GdScript => vec!["#"],
            LanguageType::Gherkin => vec!["#"],
            LanguageType::Gleam => vec!["//", "///", "////"],
            LanguageType::Glsl => vec!["//"],
            LanguageType::Go => vec!["//"],
            LanguageType::Graphql => vec!["#"],
            LanguageType::Groovy => vec!["//"],
            LanguageType::Gwion => vec!["#!"],
            LanguageType::Haskell => vec!["--"],
            LanguageType::Hcl => vec!["#", "//"],
            LanguageType::Headache => vec!["//"],
            LanguageType::Hlsl => vec!["//"],
            LanguageType::HolyC => vec!["//"],
            LanguageType::Haxe => vec!["//"],
            LanguageType::Idris => vec!["--"],
            LanguageType::Ini => vec![";", "#"],
            LanguageType::Isabelle => vec!["--"],
            LanguageType::Jai => vec!["//"],
            LanguageType::Java => vec!["//"],
            LanguageType::JavaScript => vec!["//"],
            LanguageType::Jsonnet => vec!["//", "#"],
            LanguageType::Jsx => vec!["//"],
            LanguageType::Julia => vec!["#"],
            LanguageType::Julius => vec!["//"],
            LanguageType::K => vec!["/"],
            LanguageType::KakouneScript => vec!["#"],
            LanguageType::Kotlin => vec!["//"],
            LanguageType::Lean => vec!["--"],
            LanguageType::Less => vec!["//"],
            LanguageType::LinkerScript => vec!["//"],
            LanguageType::Lisp => vec![";"],
            LanguageType::LiveScript => vec!["#"],
            LanguageType::LLVM => vec![";"],
            LanguageType::Logtalk => vec!["%"],
            LanguageType::Lua => vec!["--"],
            LanguageType::Lucius => vec!["//"],
            LanguageType::Madlang => vec!["#"],
            LanguageType::Makefile => vec!["#"],
            LanguageType::ModuleDef => vec![";"],
            LanguageType::MoonScript => vec!["--"],
            LanguageType::Meson => vec!["#"],
            LanguageType::Nim => vec!["#"],
            LanguageType::Nix => vec!["#"],
            LanguageType::ObjectiveC => vec!["//"],
            LanguageType::ObjectiveCpp => vec!["//"],
            LanguageType::Odin => vec!["//"],
            LanguageType::OpenType => vec!["#"],
            LanguageType::Org => vec!["# "],
            LanguageType::Oz => vec!["%"],
            LanguageType::Pan => vec!["#"],
            LanguageType::Pascal => vec!["//"],
            LanguageType::Perl => vec!["#"],
            LanguageType::Perl6 => vec!["#"],
            LanguageType::Pest => vec!["//"],
            LanguageType::NotQuitePerl => vec!["#"],
            LanguageType::Php => vec!["#", "//"],
            LanguageType::Pony => vec!["//"],
            LanguageType::PostCss => vec!["//"],
            LanguageType::Processing => vec!["//"],
            LanguageType::Prolog => vec!["%"],
            LanguageType::PowerShell => vec!["#"],
            LanguageType::PSL => vec!["//"],
            LanguageType::Protobuf => vec!["//"],
            LanguageType::Pug => vec!["//", "//-"],
            LanguageType::PureScript => vec!["--"],
            LanguageType::Python => vec!["#"],
            LanguageType::Qcl => vec!["//"],
            LanguageType::Q => vec!["/"],
            LanguageType::Qml => vec!["//"],
            LanguageType::R => vec!["#"],
            LanguageType::Racket => vec![";"],
            LanguageType::Rakefile => vec!["#"],
            LanguageType::Renpy => vec!["#"],
            LanguageType::RON => vec!["//"],
            LanguageType::RPMSpecfile => vec!["#"],
            LanguageType::Ruby => vec!["#"],
            LanguageType::Rust => vec!["//"],
            LanguageType::Sass => vec!["//"],
            LanguageType::Scala => vec!["//"],
            LanguageType::Scheme => vec![";"],
            LanguageType::Scons => vec!["#"],
            LanguageType::Solidity => vec!["//"],
            LanguageType::SpecmanE => vec!["--", "//"],
            LanguageType::Spice => vec!["*"],
            LanguageType::Sql => vec!["--"],
            LanguageType::SRecode => vec![";;"],
            LanguageType::Stan => vec!["//", "#"],
            LanguageType::Stratego => vec!["//"],
            LanguageType::Stylus => vec!["//"],
            LanguageType::Swift => vec!["//"],
            LanguageType::Swig => vec!["//"],
            LanguageType::SystemVerilog => vec!["//"],
            LanguageType::Tcl => vec!["#"],
            LanguageType::Tex => vec!["%"],
            LanguageType::Thrift => vec!["#", "//"],
            LanguageType::Toml => vec!["#"],
            LanguageType::Tsx => vec!["//"],
            LanguageType::Ttcn => vec!["//"],
            LanguageType::TypeScript => vec!["//"],
            LanguageType::UnrealScript => vec!["//"],
            LanguageType::UnrealShader => vec!["//"],
            LanguageType::UnrealShaderHeader => vec!["//"],
            LanguageType::UrWebProject => vec!["#"],
            LanguageType::Vala => vec!["//"],
            LanguageType::VB6 => vec!["'"],
            LanguageType::VBScript => vec!["'", "REM"],
            LanguageType::Velocity => vec!["##"],
            LanguageType::Verilog => vec!["//"],
            LanguageType::Vhdl => vec!["--"],
            LanguageType::VisualBasic => vec!["'"],
            LanguageType::VimScript => vec!["\""],
            LanguageType::Vue => vec!["//"],
            LanguageType::WebAssembly => vec![";;"],
            LanguageType::XcodeConfig => vec!["//"],
            LanguageType::Xtend => vec!["//"],
            LanguageType::Yaml => vec!["#"],
            LanguageType::Zig => vec!["//"],
            LanguageType::Zsh => vec!["#"],
            _ => Vec::new(),
        }
    }

    /// Returns the delimiter pairs of multi-line comments.
    pub fn multi_line_comments(&self) -> (r: Vec<(&'static str, &'static str)>)
        ensures
            r@.len() == multi_line_comments_spec(*self).len(),
            forall|i: int|
                0 <= i < r@.len() ==> (#[trigger] r@[i]).0@ == multi_line_comments_spec(*self)[i].0
                    && r@[i].1@ == multi_line_comments_spec(*self)[i].1,
    {
        match self {
            LanguageType::ActionScript => vec![("/*", "*/")],
            LanguageType::Agda => vec![("{-", "-}")],
            LanguageType::Alloy => vec![("/*", "*/")],
            LanguageType::Arduino => vec![("/*", "*/")],
            LanguageType::AsciiDoc => vec![("////", "////")],
            LanguageType::Asn1 => vec![("/*", "*/")],
            LanguageType::AssemblyGAS => vec![("/*", "*/")],
            LanguageType::AspNet => vec![("<!--", "-->"), ("<%--", "-->")],
            LanguageType::AutoHotKey => vec![("/*", "*/")],
            LanguageType::C => vec![("/*", "*/")],
            LanguageType::Cabal => vec![("{-", "-}")],
            LanguageType::Cassius => vec![("/*", "*/")],
            LanguageType::Ceylon => vec![("/*", "*/")],
            LanguageType::CHeader => vec![("/*", "*/")],
            LanguageType::CodeQL => vec![("/*", "*/")],
            LanguageType::CoffeeScript => vec![("###", "###")],
            LanguageType::ColdFusion => vec![("<!---", "--->")],
            LanguageType::ColdFusionScript => vec![("/*", "*/")],
            LanguageType::Coq => vec![("(*", "*)")],
            LanguageType::Cpp => vec![("/*", "*/")],
            LanguageType::CppHeader => vec![("/*", "*/")],
            LanguageType::CSharp => vec![("/*", "*/")],
            LanguageType::Css => vec![("/*", "*/")],
            LanguageType::D => vec![("/*", "*/")],
            LanguageType::Daml => vec![("{-", "-}")],
            LanguageType::Dart => vec![("/*", "*/")],
            LanguageType::DeviceTree => vec![("/*", "*/")],
            LanguageType::Dhall => vec![("{-", "-}")],
            LanguageType::DreamMaker => vec![("/*", "*/")],
            LanguageType::DotNetResource => vec![("<!--", "-->")],
            LanguageType::Dust => vec![("{!", "!}")],
            LanguageType::Elm => vec![("{-", "-}")],
            LanguageType::Emojicode => vec![("💭🔜", "🔚💭"), ("📗", "📗"), ("📘", "📘")],
            LanguageType::FlatBuffers => vec![("/*", "*/")],
            LanguageType::Fstar => vec![("(*", "*)")],
            LanguageType::Forth => vec![("( ", ")")],
            LanguageType::FreeMarker => vec![("<#--", "-->")],
            LanguageType::FSharp => vec![("(*", "*)")],
            LanguageType::Glsl => vec![("/*", "*/")],
            LanguageType::Go => vec![("/*", "*/")],
            LanguageType::Gohtml => vec![("<!--", "-->"), ("{{/*", "*/}}")],
            LanguageType::Groovy => vec![("/*", "*/")],
            LanguageType::Handlebars => vec![("<!--", "-->"), ("{{!", "}}")],
            LanguageType::Haskell => vec![("{-", "-}")],
            LanguageType::Hcl => vec![("/*", "*/")],
            LanguageType::Headache => vec![("/*", "*/")],
            LanguageType::Hlsl => vec![("/*", "*/")],
            LanguageType::HolyC => vec![("/*", "*/")],
            LanguageType::Html => vec![("<!--", "-->")],
            LanguageType::Hamlet => vec![("<!--", "-->")],
            LanguageType::Haxe => vec![("/*", "*/")],
            LanguageType::Idris => vec![("{-", "-}")],
            LanguageType::Isabelle => vec![("{*", "*}"), ("(*", "*)"), ("‹", "›"), ("\\<open>", "\\<close>")],
            LanguageType::Jai => vec![("/*", "*/")],
            LanguageType::Java => vec![("/*", "*/")],
            LanguageType::JavaScript => vec![("/*", "*/")],
            LanguageType::Jsonnet => vec![("/*", "*/")],
            LanguageType::Jsx => vec![("/*", "*/")],
            LanguageType::Julia => vec![("#=", "=#")],
            LanguageType::Julius => vec![("/*", "*/")],
            LanguageType::Kotlin => vec![("/*", "*/")],
            LanguageType::Lean => vec![("/-", "-/")],
            LanguageType::Less => vec![("/*", "*/")],
            LanguageType::Liquid => vec![("<!--", "-->"), ("{% comment %}", "{% endcomment %}")],
            LanguageType::LinkerScript => vec![("/*", "*/")],
            LanguageType::Lisp => vec![("#|", "|#")],
            LanguageType::LiveScript => vec![("/*", "*/")],
            LanguageType::Logtalk => vec![("/*", "*/")],
            LanguageType::Lua => vec![("--[[", "]]")],
            LanguageType::Lucius => vec![("/*", "*/")],
            LanguageType::Madlang => vec![("{#", "#}")],
            LanguageType::Mustache => vec![("{{!", "}}")],
            LanguageType::Nix => vec![("/*", "*/")],
            LanguageType::ObjectiveC => vec![("/*", "*/")],
            LanguageType::ObjectiveCpp => vec![("/*", "*/")],
            LanguageType::OCaml => vec![("(*", "*)")],
            LanguageType::Odin => vec![("/*", "*/")],
            LanguageType::Oz => vec![("/*", "*/")],
            LanguageType::Pascal => vec![("{", "}"), ("(*", "*)")],
            LanguageType::Perl => vec![("=pod", "=cut")],
            LanguageType::Perl6 => vec![("=begin", "=end")],
            LanguageType::NotQuitePerl => vec![("=begin", "=end")],
            LanguageType::Php => vec![("/*", "*/")],
            LanguageType::Polly => vec![("<!--", "-->")],
            LanguageType::Pony => vec![("/*", "*/")],
            LanguageType::PostCss => vec![("/*", "*/")],
            LanguageType::Processing => vec![("/*", "*/")],
            LanguageType::Prolog => vec![("/*", "*/")],
            LanguageType::PowerShell => vec![("<#", "#>")],
            LanguageType::PSL => vec![("/*", "*/")],
            LanguageType::PureScript => vec![("{-", "-}")],
            LanguageType::Qcl => vec![("/*", "*/")],
            LanguageType::Qml => vec![("/*", "*/")],
            LanguageType::Racket => vec![("#|", "|#")],
            LanguageType::Rakefile => vec![("=begin", "=end")],
            LanguageType::Razor => vec![("<!--", "-->"), ("@*", "*@")],
            LanguageType::RON => vec![("/*", "*/")],
            LanguageType::Ruby => vec![("=begin", "=end")],
            LanguageType::RubyHtml => vec![("<!--", "-->")],
            LanguageType::Rust => vec![("/*", "*/")],
            LanguageType::Sass => vec![("/*", "*/")],
            LanguageType::Scala => vec![("/*", "*/")],
            LanguageType::Scheme => vec![("#|", "|#")],
            LanguageType::Sml => vec![("(*", "*)")],
            LanguageType::Solidity => vec![("/*", "*/")],
            LanguageType::SpecmanE => vec![("'>", "<'")],
            LanguageType::Sql => vec![("/*", "*/")],
            LanguageType::Stan => vec![("/*", "*/")],
            LanguageType::Stratego => vec![("/*", "*/")],
            LanguageType::Stylus => vec![("/*", "*/")],
            LanguageType::Svelte => vec![("<!--", "-->")],
            LanguageType::Svg => vec![("<!--", "-->")],
            LanguageType::Swift => vec![("/*", "*/")],
            LanguageType::Swig => vec![("/*", "*/")],
            LanguageType::SystemVerilog => vec![("/*", "*/")],
            LanguageType::Tera => vec![("<!--", "-->"), ("{#", "#}")],
            LanguageType::Thrift => vec![("/*", "*/")],
            LanguageType::Tsx => vec![("/*", "*/")],
            LanguageType::Ttcn => vec![("/*", "*/")],
            LanguageType::Twig => vec![("<!--", "-->"), ("{#", "#}")],
            LanguageType::TypeScript => vec![("/*", "*/")],
            LanguageType::UnrealScript => vec![("/*", "*/")],
            LanguageType::UnrealShader => vec![("/*", "*/")],
            LanguageType::UnrealShaderHeader => vec![("/*", "*/")],
            LanguageType::UrWeb => vec![("(*", "*)")],
            LanguageType::Vala => vec![("/*", "*/")],
            LanguageType::Velocity => vec![("#*", "*#")],
            LanguageType::Verilog => vec![("/*", "*/")],
            LanguageType::VisualStudioProject => vec![("<!--", "-->")],
            LanguageType::Vue => vec![("<!--", "-->"), ("/*", "*/")],
            LanguageType::Wolfram => vec![("(*", "*)")],
            LanguageType::Xaml => vec![("<!--", "-->")],
            LanguageType::Xml => vec![("<!--", "-->")],
            LanguageType::XSL => vec![("<!--", "-->")],
            LanguageType::MsBuild => vec![("<!--", "-->")],
            LanguageType::Xtend => vec![("/*", "*/")],
            _ => Vec::new(),
        }
    }

    /// Returns whether multi-line comments of the language may nest.
    pub fn allows_nested(&self) -> (r: bool)
        ensures
            r == allows_nested_spec(*self),
    {
        match self {
            LanguageType::Agda => true,
            LanguageType::Cabal => true,
            LanguageType::Daml => true,
            LanguageType::Dhall => true,
            LanguageType::DreamMaker => true,
            LanguageType::Elm => true,
            LanguageType::Haskell => true,
            LanguageType::Idris => true,
            LanguageType::Jai => true,
            LanguageType::Julia => true,
            LanguageType::K => true,
            LanguageType::Kotlin => true,
            LanguageType::Lean => true,
            LanguageType::Lisp => true,
            LanguageType::Pascal => true,
            LanguageType::PureScript => true,
            LanguageType::Q => true,
            LanguageType::Racket => true,
            LanguageType::RON => true,
            LanguageType::Rust => true,
            LanguageType::Scheme => true,
            LanguageType::Swift => true,
            LanguageType::Swig => true,
            _ => false,
        }
    }

    /// Returns the delimiter pairs of explicitly nestable comments.
    pub fn nested_comments(&self) -> (r: Vec<(&'static str, &'static str)>)
        ensures
            r@.len() == nested_comments_spec(*self).len(),
            forall|i: int|
                0 <= i < r@.len() ==> (#[trigger] r@[i]).0@ == nested_comments_spec(*self)[i].0
                    && r@[i].1@ == nested_comments_spec(*self)[i].1,
    {
        match self {
            LanguageType::D => vec![("/+", "+/")],
            _ => Vec::new(),
        }
    }

    /// Returns the delimiter pairs of string literals, longest delimiter first.
    pub fn quotes(&self) -> (r: Vec<(&'static str, &'static str)>)
        ensures
            r@.len() == quotes_spec(*self).len(),
            forall|i: int|
                0 <= i < r@.len() ==> (#[trigger] r@[i]).0@ == quotes_spec(*self)[i].0
                    && r@[i].1@ == quotes_spec(*self)[i].1,
    {
        match self {
            LanguageType::ActionScript => vec![("\"", "\"")],
            LanguageType::Arduino => vec![("\"", "\"")],
            LanguageType::Asn1 => vec![("\"", "\""), ("'", "'")],
            LanguageType::Assembly => vec![("\"", "\""), ("'", "'")],
            LanguageType::AssemblyGAS => vec![("\"", "\"")],
            LanguageType::Sh => vec![("\"", "\""), ("'", "'")],
            LanguageType::Bash => vec![("\"", "\""), ("'", "'")],
            LanguageType::BrightScript => vec![("\"", "\"")],
            LanguageType::Elvish => vec![("\"", "\""), ("'", "'")],
            LanguageType::Fish => vec![("\"", "\""), ("'", "'")],
            LanguageType::Bean => vec![("\"", "\"")],
            LanguageType::C => vec![("\"", "\"")],
            LanguageType::Cassius => vec![("\"", "\""), ("'", "'")],
            LanguageType::Ceylon => vec![("\"\"\"", "\"\"\""), ("\"", "\"")],
            LanguageType::CHeader => vec![("\"", "\"")],
            LanguageType::Clojure => vec![("\"", "\"")],
            LanguageType::ClojureScript => vec![("\"", "\"")],
            LanguageType::ClojureC => vec![("\"", "\"")],
            LanguageType::CMake => vec![("\"", "\"")],
            LanguageType::CodeQL => vec![("\"", "\"")],
            LanguageType::CoffeeScript => vec![("\"", "\""), ("'", "'")],
            LanguageType::ColdFusion => vec![("\"", "\""), ("'", "'")],
            LanguageType::ColdFusionScript => vec![("\"", "\"")],
            LanguageType::Coq => vec![("\"", "\"")],
            LanguageType::Cpp => vec![("\"", "\"")],
            LanguageType::CppHeader => vec![("\"", "\"")],
            LanguageType::Crystal => vec![("\"", "\""), ("'", "'")],
            LanguageType::CSharp => vec![("\"", "\"")],
            LanguageType::Css => vec![("\"", "\""), ("'", "'")],
            LanguageType::D => vec![("\"", "\""), ("'", "'")],
            LanguageType::Dart => vec![("\"\"\"", "\"\"\""), ("'''", "'''"), ("\"", "\""), ("'", "'")],
            LanguageType::DeviceTree => vec![("\"", "\"")],
            LanguageType::Dhall => vec![("\"", "\""), ("''", "''")],
            LanguageType::DreamMaker => vec![("{\"", "\"}"), ("\"", "\""), ("'", "'")],
            LanguageType::Dockerfile => vec![("\"", "\""), ("'", "'")],
            LanguageType::DotNetResource => vec![("\"", "\"")],
            LanguageType::Elixir => vec![("\"\"\"", "\"\"\""), ("'''", "'''"), ("\"", "\""), ("'", "'")],
            LanguageType::Emojicode => vec![("❌🔤", "❌🔤")],
            LanguageType::FlatBuffers => vec![("\"", "\"")],
            LanguageType::Fstar => vec![("\"", "\"")],
            LanguageType::FortranLegacy => vec![("\"", "\""), ("'", "'")],
            LanguageType::FortranModern => vec![("\"", "\"")],
            LanguageType::FSharp => vec![("\"", "\"")],
            LanguageType::GdScript => vec![("\"\"\"", "\"\"\""), ("\"", "\""), ("'", "'")],
            LanguageType::Gleam => vec![("\"", "\"")],
            LanguageType::Glsl => vec![("\"", "\"")],
            LanguageType::Go => vec![("\"", "\"")],
            LanguageType::Gohtml => vec![("\"", "\""), ("'", "'")],
            LanguageType::Graphql => vec![("\"\"\"", "\"\"\""), ("\"", "\"")],
            LanguageType::Groovy => vec![("\"", "\"")],
            LanguageType::Gwion => vec![("\"", "\"")],
            LanguageType::Handlebars => vec![("\"", "\""), ("'", "'")],
            LanguageType::Hcl => vec![("\"", "\"")],
            LanguageType::Headache => vec![("\"", "\"")],
            LanguageType::Hlsl => vec![("\"", "\"")],
            LanguageType::HolyC => vec![("\"", "\"")],
            LanguageType::Html => vec![("\"", "\""), ("'", "'")],
            LanguageType::Hamlet => vec![("\"", "\""), ("'", "'")],
            LanguageType::Haxe => vec![("\"", "\""), ("'", "'")],
            LanguageType::Idris => vec![("\"\"\"", "\"\"\""), ("\"", "\"")],
            LanguageType::Isabelle => vec![("''", "''")],
            LanguageType::Jai => vec![("\"", "\"")],
            LanguageType::Java => vec![("\"", "\"")],
            LanguageType::JavaScript => vec![("\"", "\""), ("'", "'"), ("`", "`")],
            LanguageType::Jsonnet => vec![("\"", "\""), ("'", "'")],
            LanguageType::Jsx => vec![("\"", "\""), ("'", "'"), ("`", "`")],
            LanguageType::Julia => vec![("\"\"\"", "\"\"\""), ("\"", "\"")],
            LanguageType::Julius => vec![("\"", "\""), ("'", "'"), ("`", "`")],
            LanguageType::K => vec![("\"", "\"")],
            LanguageType::KakouneScript => vec![("\"", "\""), ("'", "'")],
            LanguageType::Kotlin => vec![("\"\"\"", "\"\"\""), ("\"", "\"")],
            LanguageType::Less => vec![("\"", "\""), ("'", "'")],
            LanguageType::Liquid => vec![("\"", "\""), ("'", "'")],
            LanguageType::LinkerScript => vec![("\"", "\"")],
            LanguageType::LiveScript => vec![("\"", "\""), ("'", "'")],
            LanguageType::LLVM => vec![("\"", "\""), ("'", "'")],
            LanguageType::Logtalk => vec![("\"", "\"")],
            LanguageType::Lua => vec![("\"", "\""), ("'", "'")],
            LanguageType::Lucius => vec![("\"", "\""), ("'", "'")],
            LanguageType::MoonScript => vec![("\"", "\""), ("'", "'")],
            LanguageType::Meson => vec![("'''", "'''"), ("'", "'")],
            LanguageType::Mustache => vec![("\"", "\""), ("'", "'")],
            LanguageType::Nim => vec![("\"\"\"", "\"\"\""), ("\"", "\"")],
            LanguageType::Nix => vec![("\"", "\"")],
            LanguageType::ObjectiveC => vec![("\"", "\"")],
            LanguageType::ObjectiveCpp => vec![("\"", "\"")],
            LanguageType::OCaml => vec![("\"", "\"")],
            LanguageType::Odin => vec![("\"", "\""), ("'", "'")],
            LanguageType::Oz => vec![("\"", "\"")],
            LanguageType::Pan => vec![("\"", "\""), ("'", "'")],
            LanguageType::Pascal => vec![("'", "'")],
            LanguageType::Perl => vec![("\"", "\""), ("'", "'")],
            LanguageType::Perl6 => vec![("\"", "\""), ("'", "'")],
            LanguageType::Pest => vec![("\"", "\""), ("'", "'")],
            LanguageType::NotQuitePerl => vec![("\"", "\""), ("'", "'")],
            LanguageType::Php => vec![("\"", "\""), ("'", "'")],
            LanguageType::Polly => vec![("\"", "\""), ("'", "'")],
            LanguageType::Pony => vec![("\"", "\"")],
            LanguageType::PostCss => vec![("\"", "\""), ("'", "'")],
            LanguageType::Processing => vec![("\"", "\"")],
            LanguageType::Prolog => vec![("\"", "\"")],
            LanguageType::PowerShell => vec![("\"@", "@\""), ("\"", "\""), ("@'", "'@"), ("'", "'")],
            LanguageType::PSL => vec![("\"", "\"")],
            LanguageType::Pug => vec![("#{\"", "\"}"), ("#{'", "'}"), ("#{`", "`}")],
            LanguageType::Python => vec![("\"", "\""), ("'", "'")],
            LanguageType::Qcl => vec![("\"", "\"")],
            LanguageType::Q => vec![("\"", "\"")],
            LanguageType::Qml => vec![("\"", "\""), ("'", "'")],
            LanguageType::Rakefile => vec![("\"", "\""), ("'", "'")],
            LanguageType::Renpy => vec![("\"", "\""), ("'", "'"), ("`", "`")],
            LanguageType::RON => vec![("\"", "\"")],
            LanguageType::Ruby => vec![("\"", "\""), ("'", "'")],
            LanguageType::RubyHtml => vec![("\"", "\""), ("'", "'")],
            LanguageType::Rust => vec![("#\"", "\"#"), ("\"", "\"")],
            LanguageType::Sass => vec![("\"", "\""), ("'", "'")],
            LanguageType::Scala => vec![("\"", "\"")],
            LanguageType::Scons => vec![("\"\"\"", "\"\"\""), ("'''", "'''"), ("\"", "\""), ("'", "'")],
            LanguageType::Sml => vec![("\"", "\"")],
            LanguageType::Solidity => vec![("\"", "\"")],
            LanguageType::Sql => vec![("'", "'")],
            LanguageType::Stan => vec![("\"", "\"")],
            LanguageType::Stratego => vec![("\"", "\""), ("$[", "]"), ("$<", ">"), ("${", "}")],
            LanguageType::Stylus => vec![("\"", "\""), ("'", "'")],
            LanguageType::Svelte => vec![("\"", "\""), ("'", "'")],
            LanguageType::Svg => vec![("\"", "\""), ("'", "'")],
            LanguageType::Swift => vec![("\"", "\"")],
            LanguageType::Swig => vec![("\"", "\"")],
            LanguageType::SystemVerilog => vec![("\"", "\"")],
            LanguageType::Tcl => vec![("\"", "\""), ("'", "'")],
            LanguageType::Tera => vec![("\"", "\""), ("'", "'")],
            LanguageType::Thrift => vec![("\"", "\""), ("'", "'")],
            LanguageType::Toml => vec![("\"\"\"", "\"\"\""), ("'''", "'''"), ("\"", "\""), ("'", "'")],
            LanguageType::Tsx => vec![("\"", "\""), ("'", "'"), ("`", "`")],
            LanguageType::Ttcn => vec![("\"", "\"")],
            LanguageType::Twig => vec![("\"", "\""), ("'", "'")],
            LanguageType::TypeScript => vec![("\"", "\""), ("'", "'"), ("`", "`")],
            LanguageType::UnrealScript => vec![("\"", "\"")],
            LanguageType::UnrealShader => vec![("\"", "\"")],
            LanguageType::UnrealShaderHeader => vec![("\"", "\"")],
            LanguageType::UrWeb => vec![("\"", "\"")],
            LanguageType::Vala => vec![("\"", "\"")],
            LanguageType::Velocity => vec![("\"", "\""), ("'", "'")],
            LanguageType::Verilog => vec![("\"", "\"")],
            LanguageType::VisualBasic => vec![("\"", "\"")],
            LanguageType::VisualStudioProject => vec![("\"", "\""), ("'", "'")],
            LanguageType::VimScript => vec![("\"", "\""), ("'", "'")],
            LanguageType::Vue => vec![("\"", "\""), ("'", "'"), ("`", "`")],
            LanguageType::WebAssembly => vec![("\"", "\""), ("'", "'")],
            LanguageType::Wolfram => vec![("\"", "\"")],
            LanguageType::Xaml => vec![("\"", "\""), ("'", "'")],
            LanguageType::XcodeConfig => vec![("\"", "\""), ("'", "'")],
            LanguageType::Xml => vec![("\"", "\""), ("'", "'")],
            LanguageType::XSL => vec![("\"", "\""), ("'", "'")],
            LanguageType::MsBuild => vec![("\"", "\""), ("'", "'")],
            LanguageType::Xtend => vec![("'''", "'''"), ("\"", "\""), ("'", "'")],
            LanguageType::Yaml => vec![("\"", "\""), ("'", "'")],
            LanguageType::Zig => vec![("\"", "\"")],
            LanguageType::Zsh => vec![("\"", "\""), ("'", "'")],
            _ => Vec::new(),
        }
    }

    /// Returns the delimiter pairs of verbatim string literals, inside which escape sequences are inert.  Longest delimiter first.
    pub fn verbatim_quotes(&self) -> (r: Vec<(&'static str, &'static str)>)
        ensures
            r@.len() == verbatim_quotes_spec(*self).len(),
            forall|i: int|
                0 <= i < r@.len() ==> (#[trigger] r@[i]).0@ == verbatim_quotes_spec(*self)[i].0
                    && r@[i].1@ == verbatim_quotes_spec(*self)[i].1,
    {
        match self {
            LanguageType::Cpp => vec![("R\"(", ")\"")],
            LanguageType::CSharp => vec![("@\"", "\"")],
            LanguageType::FSharp => vec![("@\"", "\"")],
            LanguageType::Rust => vec![("r##\"", "\"##"), ("r#\"", "\"#")],
            _ => Vec::new(),
        }
    }

    /// Returns the delimiter pairs of documentation string literals.
    pub fn doc_quotes(&self) -> (r: Vec<(&'static str, &'static str)>)
        ensures
            r@.len() == doc_quotes_spec(*self).len(),
            forall|i: int|
                0 <= i < r@.len() ==> (#[trigger] r@[i]).0@ == doc_quotes_spec(*self)[i].0
                    && r@[i].1@ == doc_quotes_spec(*self)[i].1,
    {
        match self {
            LanguageType::Pony => vec![("\"\"\"", "\"\"\"")],
            LanguageType::Python => vec![("\"\"\"", "\"\"\""), ("'''", "'''")],
            _ => Vec::new(),
        }
    }

    /// Returns the shebang interpreter lines that identify the language.
    pub fn shebangs(&self) -> (r: Vec<&'static str>)
        ensures
            r@.len() == shebangs_spec(*self).len(),
            forall|i: int|
                0 <= i < r@.len() ==> (#[trigger] r@[i])@ == shebangs_spec(*self)[i],
    {
        match self {
            LanguageType::Sh => vec!["#!/bin/sh"],
            LanguageType::Bash => vec!["#!/bin/bash"],
            LanguageType::Fish => vec!["#!/bin/fish"],
            LanguageType::Crystal => vec!["#!/usr/bin/crystal"],
            LanguageType::CShell => vec!["#!/bin/csh"],
            LanguageType::Perl => vec!["#!/usr/bin/perl"],
            LanguageType::Zsh => vec!["#!/bin/zsh"],
            _ => Vec::new(),
        }
    }

    /// Returns the syntax markers whose presence makes closer analysis of a file worthwhile.
    pub fn important_syntax(&self) -> (r: Vec<&'static str>)
        ensures
            r@.len() == important_syntax_spec(*self).len(),
            forall|i: int|
                0 <= i < r@.len() ==> (#[trigger] r@[i])@ == important_syntax_spec(*self)[i],
    {
        match self {
            LanguageType::ActionScript => vec!["\"", "/*"],
            LanguageType::Agda => vec!["{-"],
            LanguageType::Alloy => vec!["/*"],
            LanguageType::Arduino => vec!["\"", "/*"],
            LanguageType::AsciiDoc => vec!["////"],
            LanguageType::Asn1 => vec!["\"", "'", "/*"],
            LanguageType::Assembly => vec!["\"", "'"],
            LanguageType::AssemblyGAS => vec!["\"", "/*"],
            LanguageType::AspNet => vec!["<!--", "<%--"],
            LanguageType::AutoHotKey => vec!["/*"],
            LanguageType::Sh => vec!["\"", "'"],
            LanguageType::Bash => vec!["\"", "'"],
            LanguageType::BrightScript => vec!["\""],
            LanguageType::Elvish => vec!["\"", "'"],
            LanguageType::Fish => vec!["\"", "'"],
            LanguageType::Bean => vec!["\""],
            LanguageType::C => vec!["\"", "/*"],
            LanguageType::Cabal => vec!["{-"],
            LanguageType::Cassius => vec!["\"", "'", "/*"],
            LanguageType::Ceylon => vec!["\"\"\"", "\"", "/*"],
            LanguageType::CHeader => vec!["\"", "/*"],
            LanguageType::Clojure => vec!["\""],
            LanguageType::ClojureScript => vec!["\""],
            LanguageType::ClojureC => vec!["\""],
            LanguageType::CMake => vec!["\""],
            LanguageType::CodeQL => vec!["\"", "/*"],
            LanguageType::CoffeeScript => vec!["\"", "'", "###"],
            LanguageType::ColdFusion => vec!["\"", "'", "<!---"],
            LanguageType::ColdFusionScript => vec!["\"", "/*"],
            LanguageType::Coq => vec!["\"", "(*"],
            LanguageType::Cpp => vec!["\"", "/*"],
            LanguageType::CppHeader => vec!["\"", "/*"],
            LanguageType::Crystal => vec!["\"", "'"],
            LanguageType::CSharp => vec!["\"", "/*"],
            LanguageType::Css => vec!["\"", "'", "/*"],
            LanguageType::D => vec!["\"", "'", "/*", "/+"],
            LanguageType::Daml => vec!["{-"],
            LanguageType::Dart => vec!["\"\"\"", "'''", "\"", "'", "/*"],
            LanguageType::DeviceTree => vec!["\"", "/*"],
            LanguageType::Dhall => vec!["\"", "''", "{-"],
            LanguageType::DreamMaker => vec!["{\"", "\"", "'", "/*"],
            LanguageType::Dockerfile => vec!["\"", "'"],
            LanguageType::DotNetResource => vec!["\"", "<!--"],
            LanguageType::Dust => vec!["{!"],
            LanguageType::Elixir => vec!["\"\"\"", "'''", "\"", "'"],
            LanguageType::Elm => vec!["{-"],
            LanguageType::Emojicode => vec!["❌🔤", "💭🔜", "📗", "📘"],
            LanguageType::FlatBuffers => vec!["\"", "/*"],
            LanguageType::Fstar => vec!["\"", "(*"],
            LanguageType::Forth => vec!["( "],
            LanguageType::FortranLegacy => vec!["\"", "'"],
            LanguageType::FortranModern => vec!["\""],
            LanguageType::FreeMarker => vec!["<#--"],
            LanguageType::FSharp => vec!["\"", "(*"],
            LanguageType::GdScript => vec!["\"\"\"", "\"", "'"],
            LanguageType::Gleam => vec!["\""],
            LanguageType::Glsl => vec!["\"", "/*"],
            LanguageType::Go => vec!["\"", "/*"],
            LanguageType::Gohtml => vec!["\"", "'", "<!--", "{{/*"],
            LanguageType::Graphql => vec!["\"\"\"", "\""],
            LanguageType::Groovy => vec!["\"", "/*"],
            LanguageType::Gwion => vec!["\""],
            LanguageType::Handlebars => vec!["\"", "'", "<!--", "{{!"],
            LanguageType::Haskell => vec!["{-"],
            LanguageType::Hcl => vec!["\"", "/*"],
            LanguageType::Headache => vec!["\"", "/*"],
            LanguageType::Hlsl => vec!["\"", "/*"],
            LanguageType::HolyC => vec!["\"", "/*"],
            LanguageType::Html => vec!["\"", "'", "<!--", "<script", "<style"],
            LanguageType::Hamlet => vec!["\"", "'", "<!--"],
            LanguageType::Haxe => vec!["\"", "'", "/*"],
            LanguageType::Idris => vec!["\"\"\"", "\"", "{-"],
            LanguageType::Isabelle => vec!["''", "{*", "(*", "‹", "\\<open>"],
            LanguageType::Jai => vec!["\"", "/*"],
            LanguageType::Java => vec!["\"", "/*"],
            LanguageType::JavaScript => vec!["\"", "'", "`", "/*"],
            LanguageType::Jsonnet => vec!["\"", "'", "/*"],
            LanguageType::Jsx => vec!["\"", "'", "`", "/*"],
            LanguageType::Julia => vec!["\"\"\"", "\"", "#="],
            LanguageType::Julius => vec!["\"", "'", "`", "/*"],
            LanguageType::K => vec!["\""],
            LanguageType::KakouneScript => vec!["\"", "'"],
            LanguageType::Kotlin => vec!["\"\"\"", "\"", "/*"],
            LanguageType::Lean => vec!["/-"],
            LanguageType::Less => vec!["\"", "'", "/*"],
            LanguageType::Liquid => vec!["\"", "'", "<!--", "{% comment %}"],
            LanguageType::LinkerScript => vec!["\"", "/*"],
            LanguageType::Lisp => vec!["#|"],
            LanguageType::LiveScript => vec!["\"", "'", "/*"],
            LanguageType::LLVM => vec!["\"", "'"],
            LanguageType::Logtalk => vec!["\"", "/*"],
            LanguageType::Lua => vec!["\"", "'", "--[["],
            LanguageType::Lucius => vec!["\"", "'", "/*"],
            LanguageType::Madlang => vec!["{#"],
            LanguageType::Markdown => vec!["```"],
            LanguageType::MoonScript => vec!["\"", "'"],
            LanguageType::Meson => vec!["'''", "'"],
            LanguageType::Mustache => vec!["\"", "'", "{{!"],
            LanguageType::Nim => vec!["\"\"\"", "\""],
            LanguageType::Nix => vec!["\"", "/*"],
            LanguageType::ObjectiveC => vec!["\"", "/*"],
            LanguageType::ObjectiveCpp => vec!["\"", "/*"],
            LanguageType::OCaml => vec!["\"", "(*"],
            LanguageType::Odin => vec!["\"", "'", "/*"],
            LanguageType::Oz => vec!["\"", "/*"],
            LanguageType::Pan => vec!["\"", "'"],
            LanguageType::Pascal => vec!["'", "{", "(*"],
            LanguageType::Perl => vec!["\"", "'", "=pod"],
            LanguageType::Perl6 => vec!["\"", "'", "=begin"],
            LanguageType::Pest => vec!["\"", "'"],
            LanguageType::NotQuitePerl => vec!["\"", "'", "=begin"],
            LanguageType::Php => vec!["\"", "'", "/*"],
            LanguageType::Polly => vec!["\"", "'", "<!--"],
            LanguageType::Pony => vec!["\"", "\"\"\"", "/*"],
            LanguageType::PostCss => vec!["\"", "'", "/*"],
            LanguageType::Processing => vec!["\"", "/*"],
            LanguageType::Prolog => vec!["\"", "/*"],
            LanguageType::PowerShell => vec!["\"@", "\"", "@'", "'", "<#"],
            LanguageType::PSL => vec!["\"", "/*"],
            LanguageType::Pug => vec!["#{\"", "#{'", "#{`"],
            LanguageType::PureScript => vec!["{-"],
            LanguageType::Python => vec!["\"", "'", "\"\"\"", "'''"],
            LanguageType::Qcl => vec!["\"", "/*"],
            LanguageType::Q => vec!["\""],
            LanguageType::Qml => vec!["\"", "'", "/*"],
            LanguageType::Racket => vec!["#|"],
            LanguageType::Rakefile => vec!["\"", "'", "=begin"],
            LanguageType::Razor => vec!["<!--", "@*"],
            LanguageType::Renpy => vec!["\"", "'", "`"],
            LanguageType::RON => vec!["\"", "/*"],
            LanguageType::Ruby => vec!["\"", "'", "=begin"],
            LanguageType::RubyHtml => vec!["\"", "'", "<!--", "<script", "<style"],
            LanguageType::Rust => vec!["#\"", "\"", "/*", "///", "//!"],
            LanguageType::Sass => vec!["\"", "'", "/*"],
            LanguageType::Scala => vec!["\"", "/*"],
            LanguageType::Scheme => vec!["#|"],
            LanguageType::Scons => vec!["\"\"\"", "'''", "\"", "'"],
            LanguageType::Sml => vec!["\"", "(*"],
            LanguageType::Solidity => vec!["\"", "/*"],
            LanguageType::SpecmanE => vec!["'>"],
            LanguageType::Sql => vec!["'", "/*"],
            LanguageType::Stan => vec!["\"", "/*"],
            LanguageType::Stratego => vec!["\"", "$[", "$<", "${", "/*"],
            LanguageType::Stylus => vec!["\"", "'", "/*"],
            LanguageType::Svelte => vec!["\"", "'", "<!--", "<script", "<style"],
            LanguageType::Svg => vec!["\"", "'", "<!--"],
            LanguageType::Swift => vec!["\"", "/*"],
            LanguageType::Swig => vec!["\"", "/*"],
            LanguageType::SystemVerilog => vec!["\"", "/*"],
            LanguageType::Tcl => vec!["\"", "'"],
            LanguageType::Tera => vec!["\"", "'", "<!--", "{#"],
            LanguageType::Thrift => vec!["\"", "'", "/*"],
            LanguageType::Toml => vec!["\"\"\"", "'''", "\"", "'"],
            LanguageType::Tsx => vec!["\"", "'", "`", "/*"],
            LanguageType::Ttcn => vec!["\"", "/*"],
            LanguageType::Twig => vec!["\"", "'", "<!--", "{#"],
            LanguageType::TypeScript => vec!["\"", "'", "`", "/*"],
            LanguageType::UnrealScript => vec!["\"", "/*"],
            LanguageType::UnrealShader => vec!["\"", "/*"],
            LanguageType::UnrealShaderHeader => vec!["\"", "/*"],
            LanguageType::UnrealDeveloperMarkdown => vec!["```"],
            LanguageType::UrWeb => vec!["\"", "(*"],
            LanguageType::Vala => vec!["\"", "/*"],
            LanguageType::Velocity => vec!["\"", "'", "#*"],
            LanguageType::Verilog => vec!["\"", "/*"],
            LanguageType::VisualBasic => vec!["\""],
            LanguageType::VisualStudioProject => vec!["\"", "'", "<!--"],
            LanguageType::VimScript => vec!["\"", "'"],
            LanguageType::Vue => vec!["\"", "'", "`", "<!--", "/*", "<script", "<style", "<template"],
            LanguageType::WebAssembly => vec!["\"", "'"],
            LanguageType::Wolfram => vec!["\"", "(*"],
            LanguageType::Xaml => vec!["\"", "'", "<!--"],
            LanguageType::XcodeConfig => vec!["\"", "'"],
            LanguageType::Xml => vec!["\"", "'", "<!--"],
            LanguageType::XSL => vec!["\"", "'", "<!--"],
            LanguageType::MsBuild => vec!["\"", "'", "<!--"],
            LanguageType::Xtend => vec!["'''", "\"", "'", "/*"],
            LanguageType::Yaml => vec!["\"", "'"],
            LanguageType::Zig => vec!["\""],
            LanguageType::Zsh => vec!["\"", "'"],
            _ => Vec::new(),
        }
    }

}

} // verus!
