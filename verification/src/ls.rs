//! Decoration of `ls` output: an icon and a colour for each entry, chosen
//! by file type and extension.

use vstd::prelude::*;
use crossterm::style::Stylize;
use crate::text::{
    chars_eq_str, chars_of, dec, find, find_exec, is_ws, is_ws_char, join, join_chars, lines, lines_of, lower_text, push_chars, push_str, sv, starts_with, starts_with_exec, string_from_chars, sub_chars, sub_chars_take, to_lowercase, trim, trim_chars, vv,
};

verus! {

/// Icon for directories.
pub const DIR_ICON: &'static str = "\u{f115}";
/// Icon for symlinks.
pub const SYMLINK_ICON: &'static str = "\u{f0c1}";
/// Icon for executables.
pub const EXEC_ICON: &'static str = "\u{f489}";
/// Icon for pipes/FIFOs.
pub const PIPE_ICON: &'static str = "\u{f0c1}";
/// Icon for sockets.
pub const SOCKET_ICON: &'static str = "\u{f1e6}";
/// Default icon for unknown file types.
pub const DEFAULT_ICON: &'static str = "\u{f15b}";

/// File type indicator from GNU ls --classify.
#[derive(Debug, Clone, Copy, PartialEq, Eq, Structural)]
pub enum FileType {
    Directory,
    Executable,
    Symlink,
    Pipe,
    Socket,
    Regular,
}

/// The file type a `--classify` indicator character stands for.
pub open spec fn classify(c: char) -> FileType {
    if c == '/' {
        FileType::Directory
    } else if c == '*' {
        FileType::Executable
    } else if c == '@' {
        FileType::Symlink
    } else if c == '|' {
        FileType::Pipe
    } else if c == '=' {
        FileType::Socket
    } else {
        FileType::Regular
    }
}

/// The icon of a file type.
pub open spec fn type_icon(t: FileType) -> Seq<char> {
    match t {
        FileType::Directory => DIR_ICON@,
        FileType::Executable => EXEC_ICON@,
        FileType::Symlink => SYMLINK_ICON@,
        FileType::Pipe => PIPE_ICON@,
        FileType::Socket => SOCKET_ICON@,
        FileType::Regular => DEFAULT_ICON@,
    }
}

impl FileType {
    /// Parse from the classify indicator character appended by `ls --classify`.
    pub fn from_classify_char(c: char) -> (res: Self)
        ensures
            res == classify(c),
    {
        if c == '/' {
            FileType::Directory
        } else if c == '*' {
            FileType::Executable
        } else if c == '@' {
            FileType::Symlink
        } else if c == '|' {
            FileType::Pipe
        } else if c == '=' {
            FileType::Socket
        } else {
            FileType::Regular
        }
    }

    /// The icon of this file type.
    pub fn icon(self) -> (res: &'static str)
        ensures
            res@ == type_icon(self),
    {
        match self {
            FileType::Directory => DIR_ICON,
            FileType::Executable => EXEC_ICON,
            FileType::Symlink => SYMLINK_ICON,
            FileType::Pipe => PIPE_ICON,
            FileType::Socket => SOCKET_ICON,
            FileType::Regular => DEFAULT_ICON,
        }
    }
}

/// A terminal colour.
#[derive(Debug, Clone, Copy, PartialEq, Eq, Structural)]
pub enum LsColor {
    Rgb(u8, u8, u8),
    Blue,
    Magenta,
    DarkGrey,
    White,
    Reset,
}

/// Icons by extension, part 1 of the table.
pub open spec fn ext_icon_0(ext: Seq<char>) -> Option<Seq<char>> {
    if ext == "rs"@ || ext == "rlib"@ || ext == "rmeta"@ || ext == "crate"@ {
        Some("\u{e7a8}"@)
    } else if ext == "py"@ || ext == "pyc"@ || ext == "pyi"@ || ext == "pyx"@ || ext == "pxd"@ {
        Some("\u{e73c}"@)
    } else if ext == "rb"@ || ext == "erb"@ || ext == "rbs"@ || ext == "rbi"@ || ext == "gemspec"@ || ext == "rake"@ {
        Some("\u{e791}"@)
    } else if ext == "js"@ || ext == "mjs"@ || ext == "cjs"@ {
        Some("\u{e74e}"@)
    } else if ext == "ts"@ || ext == "mts"@ || ext == "cts"@ {
        Some("\u{e628}"@)
    } else if ext == "jsx"@ || ext == "tsx"@ {
        Some("\u{e7ba}"@)
    } else if ext == "go"@ {
        Some("\u{e627}"@)
    } else if ext == "java"@ {
        Some("\u{e738}"@)
    } else if ext == "c"@ || ext == "h"@ {
        Some("\u{e61e}"@)
    } else if ext == "cpp"@ || ext == "cc"@ || ext == "hpp"@ {
        Some("\u{e61d}"@)
    } else if ext == "cs"@ {
        Some("\u{f81a}"@)
    } else if ext == "swift"@ {
        Some("\u{e755}"@)
    } else {
        None
    }
}

fn ext_icon_0_exec(ext: &Vec<char>) -> (res: Option<&'static str>)
    ensures
        match res { Some(s) => ext_icon_0(ext@) == Some(s@), None => ext_icon_0(ext@) is None },
{
    if chars_eq_str(ext, "rs") || chars_eq_str(ext, "rlib") || chars_eq_str(ext, "rmeta") || chars_eq_str(ext, "crate") {
        Some("\u{e7a8}")
    } else if chars_eq_str(ext, "py") || chars_eq_str(ext, "pyc") || chars_eq_str(ext, "pyi") || chars_eq_str(ext, "pyx") || chars_eq_str(ext, "pxd") {
        Some("\u{e73c}")
    } else if chars_eq_str(ext, "rb") || chars_eq_str(ext, "erb") || chars_eq_str(ext, "rbs") || chars_eq_str(ext, "rbi") || chars_eq_str(ext, "gemspec") || chars_eq_str(ext, "rake") {
        Some("\u{e791}")
    } else if chars_eq_str(ext, "js") || chars_eq_str(ext, "mjs") || chars_eq_str(ext, "cjs") {
        Some("\u{e74e}")
    } else if chars_eq_str(ext, "ts") || chars_eq_str(ext, "mts") || chars_eq_str(ext, "cts") {
        Some("\u{e628}")
    } else if chars_eq_str(ext, "jsx") || chars_eq_str(ext, "tsx") {
        Some("\u{e7ba}")
    } else if chars_eq_str(ext, "go") {
        Some("\u{e627}")
    } else if chars_eq_str(ext, "java") {
        Some("\u{e738}")
    } else if chars_eq_str(ext, "c") || chars_eq_str(ext, "h") {
        Some("\u{e61e}")
    } else if chars_eq_str(ext, "cpp") || chars_eq_str(ext, "cc") || chars_eq_str(ext, "hpp") {
        Some("\u{e61d}")
    } else if chars_eq_str(ext, "cs") {
        Some("\u{f81a}")
    } else if chars_eq_str(ext, "swift") {
        Some("\u{e755}")
    } else {
        None
    }
}

/// Icons by extension, part 2 of the table.
pub open spec fn ext_icon_1(ext: Seq<char>) -> Option<Seq<char>> {
    if ext == "kt"@ {
        Some("\u{e634}"@)
    } else if ext == "dart"@ {
        Some("\u{e798}"@)
    } else if ext == "lua"@ {
        Some("\u{e620}"@)
    } else if ext == "php"@ {
        Some("\u{e73d}"@)
    } else if ext == "sh"@ || ext == "bash"@ || ext == "zsh"@ || ext == "fish"@ {
        Some("\u{e795}"@)
    } else if ext == "sql"@ || ext == "sqlite"@ || ext == "sqlite3"@ || ext == "db"@ {
        Some("\u{e706}"@)
    } else if ext == "cu"@ || ext == "cuh"@ || ext == "onnx"@ || ext == "pt"@ || ext == "pth"@ || ext == "safetensors"@ {
        Some("\u{e64b}"@)
    } else if ext == "r"@ {
        Some("\u{f25d}"@)
    } else if ext == "scala"@ {
        Some("\u{e737}"@)
    } else if ext == "elm"@ {
        Some("\u{e62c}"@)
    } else if ext == "ex"@ || ext == "exs"@ {
        Some("\u{e62d}"@)
    } else if ext == "erl"@ {
        Some("\u{e7b1}"@)
    } else {
        None
    }
}

fn ext_icon_1_exec(ext: &Vec<char>) -> (res: Option<&'static str>)
    ensures
        match res { Some(s) => ext_icon_1(ext@) == Some(s@), None => ext_icon_1(ext@) is None },
{
    if chars_eq_str(ext, "kt") {
        Some("\u{e634}")
    } else if chars_eq_str(ext, "dart") {
        Some("\u{e798}")
    } else if chars_eq_str(ext, "lua") {
        Some("\u{e620}")
    } else if chars_eq_str(ext, "php") {
        Some("\u{e73d}")
    } else if chars_eq_str(ext, "sh") || chars_eq_str(ext, "bash") || chars_eq_str(ext, "zsh") || chars_eq_str(ext, "fish") {
        Some("\u{e795}")
    } else if chars_eq_str(ext, "sql") || chars_eq_str(ext, "sqlite") || chars_eq_str(ext, "sqlite3") || chars_eq_str(ext, "db") {
        Some("\u{e706}")
    } else if chars_eq_str(ext, "cu") || chars_eq_str(ext, "cuh") || chars_eq_str(ext, "onnx") || chars_eq_str(ext, "pt") || chars_eq_str(ext, "pth") || chars_eq_str(ext, "safetensors") {
        Some("\u{e64b}")
    } else if chars_eq_str(ext, "r") {
        Some("\u{f25d}")
    } else if chars_eq_str(ext, "scala") {
        Some("\u{e737}")
    } else if chars_eq_str(ext, "elm") {
        Some("\u{e62c}")
    } else if chars_eq_str(ext, "ex") || chars_eq_str(ext, "exs") {
        Some("\u{e62d}")
    } else if chars_eq_str(ext, "erl") {
        Some("\u{e7b1}")
    } else {
        None
    }
}

/// Icons by extension, part 3 of the table.
pub open spec fn ext_icon_2(ext: Seq<char>) -> Option<Seq<char>> {
    if ext == "hs"@ {
        Some("\u{e777}"@)
    } else if ext == "vim"@ {
        Some("\u{e62b}"@)
    } else if ext == "zig"@ {
        Some("\u{e6a9}"@)
    } else if ext == "html"@ || ext == "htm"@ {
        Some("\u{e736}"@)
    } else if ext == "css"@ || ext == "scss"@ || ext == "sass"@ {
        Some("\u{e749}"@)
    } else if ext == "vue"@ {
        Some("\u{e6a0}"@)
    } else if ext == "svelte"@ {
        Some("\u{e697}"@)
    } else if ext == "wasm"@ {
        Some("\u{e6a1}"@)
    } else if ext == "json"@ || ext == "jsonl"@ {
        Some("\u{e60b}"@)
    } else if ext == "yaml"@ || ext == "yml"@ {
        Some("\u{e6a8}"@)
    } else if ext == "toml"@ {
        Some("\u{e6b2}"@)
    } else if ext == "xml"@ {
        Some("\u{e619}"@)
    } else {
        None
    }
}

fn ext_icon_2_exec(ext: &Vec<char>) -> (res: Option<&'static str>)
    ensures
        match res { Some(s) => ext_icon_2(ext@) == Some(s@), None => ext_icon_2(ext@) is None },
{
    if chars_eq_str(ext, "hs") {
        Some("\u{e777}")
    } else if chars_eq_str(ext, "vim") {
        Some("\u{e62b}")
    } else if chars_eq_str(ext, "zig") {
        Some("\u{e6a9}")
    } else if chars_eq_str(ext, "html") || chars_eq_str(ext, "htm") {
        Some("\u{e736}")
    } else if chars_eq_str(ext, "css") || chars_eq_str(ext, "scss") || chars_eq_str(ext, "sass") {
        Some("\u{e749}")
    } else if chars_eq_str(ext, "vue") {
        Some("\u{e6a0}")
    } else if chars_eq_str(ext, "svelte") {
        Some("\u{e697}")
    } else if chars_eq_str(ext, "wasm") {
        Some("\u{e6a1}")
    } else if chars_eq_str(ext, "json") || chars_eq_str(ext, "jsonl") {
        Some("\u{e60b}")
    } else if chars_eq_str(ext, "yaml") || chars_eq_str(ext, "yml") {
        Some("\u{e6a8}")
    } else if chars_eq_str(ext, "toml") {
        Some("\u{e6b2}")
    } else if chars_eq_str(ext, "xml") {
        Some("\u{e619}")
    } else {
        None
    }
}

/// Icons by extension, part 4 of the table.
pub open spec fn ext_icon_3(ext: Seq<char>) -> Option<Seq<char>> {
    if ext == "csv"@ || ext == "xls"@ || ext == "xlsx"@ {
        Some("\u{f1c3}"@)
    } else if ext == "ini"@ || ext == "cfg"@ || ext == "conf"@ || ext == "env"@ {
        Some("\u{e615}"@)
    } else if ext == "md"@ || ext == "markdown"@ || ext == "mdx"@ {
        Some("\u{e73e}"@)
    } else if ext == "txt"@ {
        Some("\u{f15c}"@)
    } else if ext == "pdf"@ {
        Some("\u{f1c1}"@)
    } else if ext == "doc"@ || ext == "docx"@ {
        Some("\u{f1c2}"@)
    } else if ext == "ppt"@ || ext == "pptx"@ {
        Some("\u{f1c4}"@)
    } else if ext == "png"@ || ext == "jpg"@ || ext == "jpeg"@ || ext == "gif"@ || ext == "webp"@ || ext == "bmp"@ || ext == "ico"@ || ext == "svg"@ || ext == "heic"@ {
        Some("\u{f1c5}"@)
    } else if ext == "mp3"@ || ext == "wav"@ || ext == "flac"@ || ext == "ogg"@ || ext == "m4a"@ {
        Some("\u{f1c7}"@)
    } else if ext == "mp4"@ || ext == "mkv"@ || ext == "avi"@ || ext == "mov"@ || ext == "webm"@ {
        Some("\u{f1c8}"@)
    } else if ext == "zip"@ || ext == "tar"@ || ext == "gz"@ || ext == "tgz"@ || ext == "bz2"@ || ext == "xz"@ || ext == "rar"@ || ext == "7z"@ {
        Some("\u{f1c6}"@)
    } else if ext == "deb"@ {
        Some("\u{e77d}"@)
    } else {
        None
    }
}

fn ext_icon_3_exec(ext: &Vec<char>) -> (res: Option<&'static str>)
    ensures
        match res { Some(s) => ext_icon_3(ext@) == Some(s@), None => ext_icon_3(ext@) is None },
{
    if chars_eq_str(ext, "csv") || chars_eq_str(ext, "xls") || chars_eq_str(ext, "xlsx") {
        Some("\u{f1c3}")
    } else if chars_eq_str(ext, "ini") || chars_eq_str(ext, "cfg") || chars_eq_str(ext, "conf") || chars_eq_str(ext, "env") {
        Some("\u{e615}")
    } else if chars_eq_str(ext, "md") || chars_eq_str(ext, "markdown") || chars_eq_str(ext, "mdx") {
        Some("\u{e73e}")
    } else if chars_eq_str(ext, "txt") {
        Some("\u{f15c}")
    } else if chars_eq_str(ext, "pdf") {
        Some("\u{f1c1}")
    } else if chars_eq_str(ext, "doc") || chars_eq_str(ext, "docx") {
        Some("\u{f1c2}")
    } else if chars_eq_str(ext, "ppt") || chars_eq_str(ext, "pptx") {
        Some("\u{f1c4}")
    } else if chars_eq_str(ext, "png") || chars_eq_str(ext, "jpg") || chars_eq_str(ext, "jpeg") || chars_eq_str(ext, "gif") || chars_eq_str(ext, "webp") || chars_eq_str(ext, "bmp") || chars_eq_str(ext, "ico") || chars_eq_str(ext, "svg") || chars_eq_str(ext, "heic") {
        Some("\u{f1c5}")
    } else if chars_eq_str(ext, "mp3") || chars_eq_str(ext, "wav") || chars_eq_str(ext, "flac") || chars_eq_str(ext, "ogg") || chars_eq_str(ext, "m4a") {
        Some("\u{f1c7}")
    } else if chars_eq_str(ext, "mp4") || chars_eq_str(ext, "mkv") || chars_eq_str(ext, "avi") || chars_eq_str(ext, "mov") || chars_eq_str(ext, "webm") {
        Some("\u{f1c8}")
    } else if chars_eq_str(ext, "zip") || chars_eq_str(ext, "tar") || chars_eq_str(ext, "gz") || chars_eq_str(ext, "tgz") || chars_eq_str(ext, "bz2") || chars_eq_str(ext, "xz") || chars_eq_str(ext, "rar") || chars_eq_str(ext, "7z") {
        Some("\u{f1c6}")
    } else if chars_eq_str(ext, "deb") {
        Some("\u{e77d}")
    } else {
        None
    }
}

/// Icons by extension, part 5 of the table.
pub open spec fn ext_icon_4(ext: Seq<char>) -> Option<Seq<char>> {
    if ext == "rpm"@ {
        Some("\u{e7bb}"@)
    } else if ext == "o"@ || ext == "a"@ || ext == "so"@ || ext == "dylib"@ || ext == "dll"@ {
        Some("\u{e624}"@)
    } else if ext == "gitignore"@ || ext == "gitattributes"@ || ext == "gitmodules"@ {
        Some("\u{e702}"@)
    } else if ext == "dockerfile"@ {
        Some("\u{e7b0}"@)
    } else if ext == "tf"@ || ext == "tfvars"@ {
        Some("\u{e69a}"@)
    } else if ext == "ttf"@ || ext == "otf"@ || ext == "woff"@ || ext == "woff2"@ {
        Some("\u{f031}"@)
    } else if ext == "pem"@ || ext == "crt"@ || ext == "key"@ {
        Some("\u{f084}"@)
    } else if ext == "lock"@ {
        Some("\u{f023}"@)
    } else {
        None
    }
}

fn ext_icon_4_exec(ext: &Vec<char>) -> (res: Option<&'static str>)
    ensures
        match res { Some(s) => ext_icon_4(ext@) == Some(s@), None => ext_icon_4(ext@) is None },
{
    if chars_eq_str(ext, "rpm") {
        Some("\u{e7bb}")
    } else if chars_eq_str(ext, "o") || chars_eq_str(ext, "a") || chars_eq_str(ext, "so") || chars_eq_str(ext, "dylib") || chars_eq_str(ext, "dll") {
        Some("\u{e624}")
    } else if chars_eq_str(ext, "gitignore") || chars_eq_str(ext, "gitattributes") || chars_eq_str(ext, "gitmodules") {
        Some("\u{e702}")
    } else if chars_eq_str(ext, "dockerfile") {
        Some("\u{e7b0}")
    } else if chars_eq_str(ext, "tf") || chars_eq_str(ext, "tfvars") {
        Some("\u{e69a}")
    } else if chars_eq_str(ext, "ttf") || chars_eq_str(ext, "otf") || chars_eq_str(ext, "woff") || chars_eq_str(ext, "woff2") {
        Some("\u{f031}")
    } else if chars_eq_str(ext, "pem") || chars_eq_str(ext, "crt") || chars_eq_str(ext, "key") {
        Some("\u{f084}")
    } else if chars_eq_str(ext, "lock") {
        Some("\u{f023}")
    } else {
        None
    }
}

/// The icon for a (lower-case) extension, if the table has one.
pub open spec fn ext_icon(ext: Seq<char>) -> Option<Seq<char>> {
    match ext_icon_0(ext) { Some(i) => Some(i), None => match ext_icon_1(ext) { Some(i) => Some(i), None => match ext_icon_2(ext) { Some(i) => Some(i), None => match ext_icon_3(ext) { Some(i) => Some(i), None => match ext_icon_4(ext) { Some(i) => Some(i), None => None } } } } }
}

fn ext_icon_exec(ext: &Vec<char>) -> (res: Option<&'static str>)
    ensures
        match res { Some(s) => ext_icon(ext@) == Some(s@), None => ext_icon(ext@) is None },
{
    if let Some(i) = ext_icon_0_exec(ext) {
        return Some(i);
    }
    if let Some(i) = ext_icon_1_exec(ext) {
        return Some(i);
    }
    if let Some(i) = ext_icon_2_exec(ext) {
        return Some(i);
    }
    if let Some(i) = ext_icon_3_exec(ext) {
        return Some(i);
    }
    if let Some(i) = ext_icon_4_exec(ext) {
        return Some(i);
    }
    None
}

/// Colours by extension, part 1 of the table.
pub open spec fn ext_color_0(ext: Seq<char>) -> Option<LsColor> {
    if ext == "rs"@ || ext == "rlib"@ || ext == "rmeta"@ || ext == "crate"@ {
        Some(LsColor::Rgb(0xCE, 0x42, 0x2B))
    } else if ext == "py"@ || ext == "pyc"@ || ext == "pyi"@ || ext == "pyx"@ || ext == "pxd"@ {
        Some(LsColor::Rgb(0x37, 0x76, 0xAB))
    } else if ext == "rb"@ || ext == "erb"@ || ext == "rbs"@ || ext == "rbi"@ || ext == "gemspec"@ || ext == "rake"@ {
        Some(LsColor::Rgb(0xCC, 0x34, 0x2D))
    } else if ext == "js"@ || ext == "mjs"@ || ext == "cjs"@ || ext == "jsx"@ {
        Some(LsColor::Rgb(0xF7, 0xDF, 0x1E))
    } else if ext == "ts"@ || ext == "mts"@ || ext == "cts"@ || ext == "tsx"@ {
        Some(LsColor::Rgb(0x31, 0x78, 0xC6))
    } else if ext == "go"@ {
        Some(LsColor::Rgb(0x00, 0xAD, 0xD8))
    } else if ext == "java"@ || ext == "jar"@ {
        Some(LsColor::Rgb(0xED, 0x8B, 0x00))
    } else if ext == "c"@ || ext == "h"@ {
        Some(LsColor::Rgb(0xA8, 0xB9, 0xCC))
    } else if ext == "cpp"@ || ext == "cc"@ || ext == "cxx"@ || ext == "hpp"@ {
        Some(LsColor::Rgb(0x00, 0x59, 0x9C))
    } else if ext == "sh"@ || ext == "bash"@ || ext == "zsh"@ || ext == "fish"@ {
        Some(LsColor::Rgb(0x4E, 0xAA, 0x25))
    } else if ext == "lua"@ {
        Some(LsColor::Rgb(0x00, 0x00, 0x80))
    } else if ext == "swift"@ {
        Some(LsColor::Rgb(0xFA, 0x73, 0x43))
    } else {
        None
    }
}

fn ext_color_0_exec(ext: &Vec<char>) -> (res: Option<LsColor>)
    ensures
        res == ext_color_0(ext@),
{
    if chars_eq_str(ext, "rs") || chars_eq_str(ext, "rlib") || chars_eq_str(ext, "rmeta") || chars_eq_str(ext, "crate") {
        Some(LsColor::Rgb(0xCE, 0x42, 0x2B))
    } else if chars_eq_str(ext, "py") || chars_eq_str(ext, "pyc") || chars_eq_str(ext, "pyi") || chars_eq_str(ext, "pyx") || chars_eq_str(ext, "pxd") {
        Some(LsColor::Rgb(0x37, 0x76, 0xAB))
    } else if chars_eq_str(ext, "rb") || chars_eq_str(ext, "erb") || chars_eq_str(ext, "rbs") || chars_eq_str(ext, "rbi") || chars_eq_str(ext, "gemspec") || chars_eq_str(ext, "rake") {
        Some(LsColor::Rgb(0xCC, 0x34, 0x2D))
    } else if chars_eq_str(ext, "js") || chars_eq_str(ext, "mjs") || chars_eq_str(ext, "cjs") || chars_eq_str(ext, "jsx") {
        Some(LsColor::Rgb(0xF7, 0xDF, 0x1E))
    } else if chars_eq_str(ext, "ts") || chars_eq_str(ext, "mts") || chars_eq_str(ext, "cts") || chars_eq_str(ext, "tsx") {
        Some(LsColor::Rgb(0x31, 0x78, 0xC6))
    } else if chars_eq_str(ext, "go") {
        Some(LsColor::Rgb(0x00, 0xAD, 0xD8))
    } else if chars_eq_str(ext, "java") || chars_eq_str(ext, "jar") {
        Some(LsColor::Rgb(0xED, 0x8B, 0x00))
    } else if chars_eq_str(ext, "c") || chars_eq_str(ext, "h") {
        Some(LsColor::Rgb(0xA8, 0xB9, 0xCC))
    } else if chars_eq_str(ext, "cpp") || chars_eq_str(ext, "cc") || chars_eq_str(ext, "cxx") || chars_eq_str(ext, "hpp") {
        Some(LsColor::Rgb(0x00, 0x59, 0x9C))
    } else if chars_eq_str(ext, "sh") || chars_eq_str(ext, "bash") || chars_eq_str(ext, "zsh") || chars_eq_str(ext, "fish") {
        Some(LsColor::Rgb(0x4E, 0xAA, 0x25))
    } else if chars_eq_str(ext, "lua") {
        Some(LsColor::Rgb(0x00, 0x00, 0x80))
    } else if chars_eq_str(ext, "swift") {
        Some(LsColor::Rgb(0xFA, 0x73, 0x43))
    } else {
        None
    }
}

/// Colours by extension, part 2 of the table.
pub open spec fn ext_color_1(ext: Seq<char>) -> Option<LsColor> {
    if ext == "dart"@ {
        Some(LsColor::Rgb(0x01, 0x75, 0xC2))
    } else if ext == "sql"@ {
        Some(LsColor::Rgb(0xE3, 0x8C, 0x00))
    } else if ext == "cu"@ || ext == "cuh"@ {
        Some(LsColor::Rgb(0x76, 0xB9, 0x00))
    } else if ext == "kt"@ || ext == "kts"@ {
        Some(LsColor::Rgb(0x7F, 0x52, 0xFF))
    } else if ext == "cs"@ {
        Some(LsColor::Rgb(0x51, 0x2B, 0xD4))
    } else if ext == "php"@ {
        Some(LsColor::Rgb(0x77, 0x7B, 0xB4))
    } else if ext == "html"@ || ext == "htm"@ {
        Some(LsColor::Rgb(0xE3, 0x4F, 0x26))
    } else if ext == "css"@ {
        Some(LsColor::Rgb(0x15, 0x72, 0xB6))
    } else if ext == "scss"@ || ext == "sass"@ {
        Some(LsColor::Rgb(0xCF, 0x64, 0x9A))
    } else if ext == "vue"@ {
        Some(LsColor::Rgb(0x4F, 0xC0, 0x8D))
    } else if ext == "svelte"@ {
        Some(LsColor::Rgb(0xFF, 0x3E, 0x00))
    } else if ext == "wasm"@ || ext == "wat"@ {
        Some(LsColor::Rgb(0x65, 0x4F, 0xF0))
    } else {
        None
    }
}

fn ext_color_1_exec(ext: &Vec<char>) -> (res: Option<LsColor>)
    ensures
        res == ext_color_1(ext@),
{
    if chars_eq_str(ext, "dart") {
        Some(LsColor::Rgb(0x01, 0x75, 0xC2))
    } else if chars_eq_str(ext, "sql") {
        Some(LsColor::Rgb(0xE3, 0x8C, 0x00))
    } else if chars_eq_str(ext, "cu") || chars_eq_str(ext, "cuh") {
        Some(LsColor::Rgb(0x76, 0xB9, 0x00))
    } else if chars_eq_str(ext, "kt") || chars_eq_str(ext, "kts") {
        Some(LsColor::Rgb(0x7F, 0x52, 0xFF))
    } else if chars_eq_str(ext, "cs") {
        Some(LsColor::Rgb(0x51, 0x2B, 0xD4))
    } else if chars_eq_str(ext, "php") {
        Some(LsColor::Rgb(0x77, 0x7B, 0xB4))
    } else if chars_eq_str(ext, "html") || chars_eq_str(ext, "htm") {
        Some(LsColor::Rgb(0xE3, 0x4F, 0x26))
    } else if chars_eq_str(ext, "css") {
        Some(LsColor::Rgb(0x15, 0x72, 0xB6))
    } else if chars_eq_str(ext, "scss") || chars_eq_str(ext, "sass") {
        Some(LsColor::Rgb(0xCF, 0x64, 0x9A))
    } else if chars_eq_str(ext, "vue") {
        Some(LsColor::Rgb(0x4F, 0xC0, 0x8D))
    } else if chars_eq_str(ext, "svelte") {
        Some(LsColor::Rgb(0xFF, 0x3E, 0x00))
    } else if chars_eq_str(ext, "wasm") || chars_eq_str(ext, "wat") {
        Some(LsColor::Rgb(0x65, 0x4F, 0xF0))
    } else {
        None
    }
}

/// Colours by extension, part 3 of the table.
pub open spec fn ext_color_2(ext: Seq<char>) -> Option<LsColor> {
    if ext == "json"@ || ext == "jsonl"@ {
        Some(LsColor::Rgb(0xCB, 0xCB, 0x41))
    } else if ext == "yaml"@ || ext == "yml"@ {
        Some(LsColor::Rgb(0xCB, 0x17, 0x1E))
    } else if ext == "toml"@ {
        Some(LsColor::Rgb(0x9C, 0x41, 0x21))
    } else if ext == "xml"@ {
        Some(LsColor::Rgb(0xF8, 0x00, 0x00))
    } else if ext == "csv"@ {
        Some(LsColor::Rgb(0x23, 0x73, 0x46))
    } else if ext == "proto"@ || ext == "pb"@ {
        Some(LsColor::Rgb(0x42, 0x85, 0xF4))
    } else if ext == "md"@ || ext == "markdown"@ || ext == "mdx"@ {
        Some(LsColor::Rgb(0xFF, 0xFF, 0xFF))
    } else if ext == "txt"@ {
        Some(LsColor::Rgb(0xAA, 0xAA, 0xAA))
    } else if ext == "pdf"@ || ext == "mp4"@ || ext == "mkv"@ || ext == "avi"@ || ext == "mov"@ || ext == "webm"@ {
        Some(LsColor::Rgb(0xFF, 0x00, 0x00))
    } else if ext == "doc"@ || ext == "docx"@ {
        Some(LsColor::Rgb(0x2B, 0x57, 0x9A))
    } else if ext == "xls"@ || ext == "xlsx"@ {
        Some(LsColor::Rgb(0x21, 0x73, 0x46))
    } else if ext == "gitignore"@ || ext == "gitattributes"@ || ext == "gitmodules"@ {
        Some(LsColor::Rgb(0xF0, 0x50, 0x32))
    } else {
        None
    }
}

fn ext_color_2_exec(ext: &Vec<char>) -> (res: Option<LsColor>)
    ensures
        res == ext_color_2(ext@),
{
    if chars_eq_str(ext, "json") || chars_eq_str(ext, "jsonl") {
        Some(LsColor::Rgb(0xCB, 0xCB, 0x41))
    } else if chars_eq_str(ext, "yaml") || chars_eq_str(ext, "yml") {
        Some(LsColor::Rgb(0xCB, 0x17, 0x1E))
    } else if chars_eq_str(ext, "toml") {
        Some(LsColor::Rgb(0x9C, 0x41, 0x21))
    } else if chars_eq_str(ext, "xml") {
        Some(LsColor::Rgb(0xF8, 0x00, 0x00))
    } else if chars_eq_str(ext, "csv") {
        Some(LsColor::Rgb(0x23, 0x73, 0x46))
    } else if chars_eq_str(ext, "proto") || chars_eq_str(ext, "pb") {
        Some(LsColor::Rgb(0x42, 0x85, 0xF4))
    } else if chars_eq_str(ext, "md") || chars_eq_str(ext, "markdown") || chars_eq_str(ext, "mdx") {
        Some(LsColor::Rgb(0xFF, 0xFF, 0xFF))
    } else if chars_eq_str(ext, "txt") {
        Some(LsColor::Rgb(0xAA, 0xAA, 0xAA))
    } else if chars_eq_str(ext, "pdf") || chars_eq_str(ext, "mp4") || chars_eq_str(ext, "mkv") || chars_eq_str(ext, "avi") || chars_eq_str(ext, "mov") || chars_eq_str(ext, "webm") {
        Some(LsColor::Rgb(0xFF, 0x00, 0x00))
    } else if chars_eq_str(ext, "doc") || chars_eq_str(ext, "docx") {
        Some(LsColor::Rgb(0x2B, 0x57, 0x9A))
    } else if chars_eq_str(ext, "xls") || chars_eq_str(ext, "xlsx") {
        Some(LsColor::Rgb(0x21, 0x73, 0x46))
    } else if chars_eq_str(ext, "gitignore") || chars_eq_str(ext, "gitattributes") || chars_eq_str(ext, "gitmodules") {
        Some(LsColor::Rgb(0xF0, 0x50, 0x32))
    } else {
        None
    }
}

/// Colours by extension, part 4 of the table.
pub open spec fn ext_color_3(ext: Seq<char>) -> Option<LsColor> {
    if ext == "ini"@ || ext == "cfg"@ || ext == "conf"@ {
        Some(LsColor::Rgb(0x6D, 0x80, 0x86))
    } else if ext == "plist"@ {
        Some(LsColor::Rgb(0x99, 0x99, 0x99))
    } else if ext == "dockerfile"@ {
        Some(LsColor::Rgb(0x24, 0x96, 0xED))
    } else if ext == "tf"@ || ext == "tfvars"@ {
        Some(LsColor::Rgb(0x7B, 0x42, 0xBC))
    } else if ext == "png"@ || ext == "jpg"@ || ext == "jpeg"@ || ext == "gif"@ || ext == "webp"@ || ext == "bmp"@ || ext == "ico"@ || ext == "heic"@ {
        Some(LsColor::Rgb(0xFF, 0x69, 0xB4))
    } else if ext == "svg"@ {
        Some(LsColor::Rgb(0xFF, 0xB1, 0x3B))
    } else if ext == "mp3"@ || ext == "wav"@ || ext == "flac"@ || ext == "ogg"@ || ext == "m4a"@ {
        Some(LsColor::Rgb(0x1D, 0xB9, 0x54))
    } else if ext == "zip"@ || ext == "tar"@ || ext == "gz"@ || ext == "tgz"@ || ext == "bz2"@ || ext == "xz"@ || ext == "rar"@ || ext == "7z"@ {
        Some(LsColor::Rgb(0xF9, 0xE2, 0xAF))
    } else if ext == "deb"@ {
        Some(LsColor::Rgb(0xA8, 0x00, 0x30))
    } else if ext == "rpm"@ {
        Some(LsColor::Rgb(0xEE, 0x00, 0x00))
    } else if ext == "o"@ || ext == "a"@ {
        Some(LsColor::Rgb(0x6D, 0x6D, 0x6D))
    } else if ext == "so"@ || ext == "dylib"@ || ext == "dll"@ {
        Some(LsColor::Rgb(0x5C, 0x6B, 0xC0))
    } else {
        None
    }
}

fn ext_color_3_exec(ext: &Vec<char>) -> (res: Option<LsColor>)
    ensures
        res == ext_color_3(ext@),
{
    if chars_eq_str(ext, "ini") || chars_eq_str(ext, "cfg") || chars_eq_str(ext, "conf") {
        Some(LsColor::Rgb(0x6D, 0x80, 0x86))
    } else if chars_eq_str(ext, "plist") {
        Some(LsColor::Rgb(0x99, 0x99, 0x99))
    } else if chars_eq_str(ext, "dockerfile") {
        Some(LsColor::Rgb(0x24, 0x96, 0xED))
    } else if chars_eq_str(ext, "tf") || chars_eq_str(ext, "tfvars") {
        Some(LsColor::Rgb(0x7B, 0x42, 0xBC))
    } else if chars_eq_str(ext, "png") || chars_eq_str(ext, "jpg") || chars_eq_str(ext, "jpeg") || chars_eq_str(ext, "gif") || chars_eq_str(ext, "webp") || chars_eq_str(ext, "bmp") || chars_eq_str(ext, "ico") || chars_eq_str(ext, "heic") {
        Some(LsColor::Rgb(0xFF, 0x69, 0xB4))
    } else if chars_eq_str(ext, "svg") {
        Some(LsColor::Rgb(0xFF, 0xB1, 0x3B))
    } else if chars_eq_str(ext, "mp3") || chars_eq_str(ext, "wav") || chars_eq_str(ext, "flac") || chars_eq_str(ext, "ogg") || chars_eq_str(ext, "m4a") {
        Some(LsColor::Rgb(0x1D, 0xB9, 0x54))
    } else if chars_eq_str(ext, "zip") || chars_eq_str(ext, "tar") || chars_eq_str(ext, "gz") || chars_eq_str(ext, "tgz") || chars_eq_str(ext, "bz2") || chars_eq_str(ext, "xz") || chars_eq_str(ext, "rar") || chars_eq_str(ext, "7z") {
        Some(LsColor::Rgb(0xF9, 0xE2, 0xAF))
    } else if chars_eq_str(ext, "deb") {
        Some(LsColor::Rgb(0xA8, 0x00, 0x30))
    } else if chars_eq_str(ext, "rpm") {
        Some(LsColor::Rgb(0xEE, 0x00, 0x00))
    } else if chars_eq_str(ext, "o") || chars_eq_str(ext, "a") {
        Some(LsColor::Rgb(0x6D, 0x6D, 0x6D))
    } else if chars_eq_str(ext, "so") || chars_eq_str(ext, "dylib") || chars_eq_str(ext, "dll") {
        Some(LsColor::Rgb(0x5C, 0x6B, 0xC0))
    } else {
        None
    }
}

/// Colours by extension, part 5 of the table.
pub open spec fn ext_color_4(ext: Seq<char>) -> Option<LsColor> {
    if ext == "exe"@ || ext == "bin"@ {
        Some(LsColor::Rgb(0x00, 0xFF, 0x00))
    } else if ext == "sqlite"@ || ext == "sqlite3"@ || ext == "db"@ {
        Some(LsColor::Rgb(0x00, 0x3B, 0x57))
    } else if ext == "onnx"@ || ext == "lock"@ {
        Some(LsColor::Rgb(0x80, 0x80, 0x80))
    } else if ext == "pt"@ || ext == "pth"@ {
        Some(LsColor::Rgb(0xEE, 0x4C, 0x2C))
    } else if ext == "safetensors"@ {
        Some(LsColor::Rgb(0x00, 0xB4, 0xD8))
    } else if ext == "ttf"@ || ext == "otf"@ || ext == "woff"@ || ext == "woff2"@ {
        Some(LsColor::Rgb(0xCC, 0xCC, 0xCC))
    } else if ext == "pem"@ || ext == "crt"@ || ext == "cer"@ || ext == "key"@ {
        Some(LsColor::Rgb(0xFF, 0xD7, 0x00))
    } else {
        None
    }
}

fn ext_color_4_exec(ext: &Vec<char>) -> (res: Option<LsColor>)
    ensures
        res == ext_color_4(ext@),
{
    if chars_eq_str(ext, "exe") || chars_eq_str(ext, "bin") {
        Some(LsColor::Rgb(0x00, 0xFF, 0x00))
    } else if chars_eq_str(ext, "sqlite") || chars_eq_str(ext, "sqlite3") || chars_eq_str(ext, "db") {
        Some(LsColor::Rgb(0x00, 0x3B, 0x57))
    } else if chars_eq_str(ext, "onnx") || chars_eq_str(ext, "lock") {
        Some(LsColor::Rgb(0x80, 0x80, 0x80))
    } else if chars_eq_str(ext, "pt") || chars_eq_str(ext, "pth") {
        Some(LsColor::Rgb(0xEE, 0x4C, 0x2C))
    } else if chars_eq_str(ext, "safetensors") {
        Some(LsColor::Rgb(0x00, 0xB4, 0xD8))
    } else if chars_eq_str(ext, "ttf") || chars_eq_str(ext, "otf") || chars_eq_str(ext, "woff") || chars_eq_str(ext, "woff2") {
        Some(LsColor::Rgb(0xCC, 0xCC, 0xCC))
    } else if chars_eq_str(ext, "pem") || chars_eq_str(ext, "crt") || chars_eq_str(ext, "cer") || chars_eq_str(ext, "key") {
        Some(LsColor::Rgb(0xFF, 0xD7, 0x00))
    } else {
        None
    }
}

/// The colour for a (lower-case) extension, if the table has one.
pub open spec fn ext_color(ext: Seq<char>) -> Option<LsColor> {
    match ext_color_0(ext) { Some(c) => Some(c), None => match ext_color_1(ext) { Some(c) => Some(c), None => match ext_color_2(ext) { Some(c) => Some(c), None => match ext_color_3(ext) { Some(c) => Some(c), None => match ext_color_4(ext) { Some(c) => Some(c), None => None } } } } }
}

fn ext_color_exec(ext: &Vec<char>) -> (res: Option<LsColor>)
    ensures
        res == ext_color(ext@),
{
    if let Some(c) = ext_color_0_exec(ext) {
        return Some(c);
    }
    if let Some(c) = ext_color_1_exec(ext) {
        return Some(c);
    }
    if let Some(c) = ext_color_2_exec(ext) {
        return Some(c);
    }
    if let Some(c) = ext_color_3_exec(ext) {
        return Some(c);
    }
    if let Some(c) = ext_color_4_exec(ext) {
        return Some(c);
    }
    None
}

/// Whether `c` is a `--classify` indicator.
pub open spec fn is_classify_char(c: char) -> bool {
    c == '/' || c == '*' || c == '@' || c == '|' || c == '='
}

/// `s` without trailing classify indicators.
pub open spec fn strip_classify(s: Seq<char>) -> Seq<char>
    decreases s.len(),
{
    if s.len() > 0 && is_classify_char(s.last()) {
        strip_classify(s.drop_last())
    } else {
        s
    }
}

/// The text after the last `c` in `s`, or all of `s` when there is none
/// (`str::rsplit(c).next()`).
pub open spec fn last_segment(s: Seq<char>, c: char) -> Seq<char>
    decreases s.len(),
{
    if s.len() == 0 {
        s
    } else if s.last() == c {
        seq![]
    } else {
        last_segment(s.drop_last(), c).push(s.last())
    }
}

fn strip_classify_exec(v: &Vec<char>) -> (res: Vec<char>)
    ensures
        res@ == strip_classify(v@),
{
    let mut end = v.len();
    assert(v@.take(end as int) =~= v@);
    while end > 0 && (v[end - 1] == '/' || v[end - 1] == '*' || v[end - 1] == '@' || v[end - 1] == '|'
        || v[end - 1] == '=')
        invariant
            end <= v.len(),
            strip_classify(v@) == strip_classify(v@.take(end as int)),
        decreases end,
    {
        assert(v@.take(end as int).drop_last() =~= v@.take(end - 1));
        end = end - 1;
    }
    sub_chars_take(v, end)
}

fn last_segment_exec(v: &Vec<char>, c: char) -> (res: Vec<char>)
    ensures
        res@ == last_segment(v@, c),
{
    let mut start = v.len();
    proof {
        assert(v@.skip(v.len() as int) =~= Seq::<char>::empty());
        assert(v@.take(v.len() as int) =~= v@);
        assert(last_segment(v@, c) + Seq::<char>::empty() =~= last_segment(v@, c));
    }
    while start > 0 && v[start - 1] != c
        invariant
            start <= v.len(),
            forall|k: int| start <= k < v.len() ==> v@[k] != c,
            last_segment(v@, c) == last_segment(v@.take(start as int), c) + v@.skip(start as int),
        decreases start,
    {
        let ghost t = v@.take(start as int);
        assert(t.drop_last() =~= v@.take(start - 1));
        assert(v@.skip(start - 1) =~= seq![v@[start - 1]] + v@.skip(start as int));
        assert(last_segment(t, c) == last_segment(t.drop_last(), c).push(t.last()));
        assert(last_segment(t.drop_last(), c).push(t.last()) + v@.skip(start as int) =~= last_segment(
            v@.take(start - 1),
            c,
        ) + v@.skip(start - 1));
        start = start - 1;
    }
    proof {
        let t = v@.take(start as int);
        if start > 0 {
            assert(t.last() == c);
        }
        assert(last_segment(t, c) =~= Seq::<char>::empty());
        assert(last_segment(v@, c) =~= v@.skip(start as int));
    }
    let r = sub_chars(v, start, v.len());
    assert(v@.subrange(start as int, v.len() as int) =~= v@.skip(start as int));
    r
}

/// The icon for a file name, by its extension (case-insensitive), after
/// dropping classify indicators; the default icon when unknown.
pub open spec fn icon_for_name_spec(name: Seq<char>) -> Seq<char> {
    match ext_icon(lower_text(last_segment(strip_classify(name), '.'))) {
        Some(i) => i,
        None => DEFAULT_ICON@,
    }
}

/// Get icon for a filename based on its extension.
pub fn icon_for_name(name: &str) -> (res: &'static str)
    ensures
        res@ == icon_for_name_spec(name@),
{
    let n = chars_of(name);
    let clean = strip_classify_exec(&n);
    let ext = last_segment_exec(&clean, '.');
    let ext_s = string_from_chars(&ext);
    let lower = to_lowercase(ext_s.as_str());
    let l = chars_of(lower.as_str());
    match ext_icon_exec(&l) {
        Some(i) => i,
        None => DEFAULT_ICON,
    }
}

/// The icon for an entry: by type, or by name for regular files.
pub open spec fn icon_for_entry_spec(name: Seq<char>, t: FileType) -> Seq<char> {
    match t {
        FileType::Regular => icon_for_name_spec(name),
        _ => type_icon(t),
    }
}

/// Get icon for a filename with its file type.
pub fn icon_for_entry(name: &str, file_type: FileType) -> (res: &'static str)
    ensures
        res@ == icon_for_entry_spec(name@, file_type),
{
    match file_type {
        FileType::Directory => DIR_ICON,
        FileType::Executable => EXEC_ICON,
        FileType::Symlink => SYMLINK_ICON,
        FileType::Pipe => PIPE_ICON,
        FileType::Socket => SOCKET_ICON,
        FileType::Regular => icon_for_name(name),
    }
}

/// File type color mapping.
pub struct FileColors {
    pub directory: LsColor,
    pub symlink: LsColor,
    pub executable: LsColor,
    pub pipe: LsColor,
    pub socket: LsColor,
}

/// The colour of an extension (case-insensitive), `Reset` when unknown.
pub open spec fn color_for_extension(ext: Seq<char>) -> LsColor {
    match ext_color(lower_text(ext)) {
        Some(c) => c,
        None => LsColor::Reset,
    }
}

impl FileColors {
    /// The colours used for each special file type.
    pub open spec fn standard(self) -> bool {
        &&& self.directory == LsColor::Rgb(0x5C, 0x9D, 0xFF)
        &&& self.symlink == LsColor::Rgb(0x00, 0xFF, 0xFF)
        &&& self.executable == LsColor::Rgb(0x00, 0xFF, 0x00)
        &&& self.pipe == LsColor::Magenta
        &&& self.socket == LsColor::Magenta
    }

    pub fn new() -> (res: Self)
        ensures
            res.standard(),
    {
        FileColors {
            directory: LsColor::Rgb(0x5C, 0x9D, 0xFF),
            symlink: LsColor::Rgb(0x00, 0xFF, 0xFF),
            executable: LsColor::Rgb(0x00, 0xFF, 0x00),
            pipe: LsColor::Magenta,
            socket: LsColor::Magenta,
        }
    }

    pub fn for_extension(&self, ext: &str) -> (res: LsColor)
        ensures
            res == color_for_extension(ext@),
    {
        let lower = to_lowercase(ext);
        let l = chars_of(lower.as_str());
        match ext_color_exec(&l) {
            Some(c) => c,
            None => LsColor::Reset,
        }
    }

    pub fn directory(&self) -> (res: LsColor)
        ensures
            res == self.directory,
    {
        self.directory
    }

    pub fn symlink(&self) -> (res: LsColor)
        ensures
            res == self.symlink,
    {
        self.symlink
    }

    pub fn executable(&self) -> (res: LsColor)
        ensures
            res == self.executable,
    {
        self.executable
    }

    pub fn pipe(&self) -> (res: LsColor)
        ensures
            res == self.pipe,
    {
        self.pipe
    }

    pub fn socket(&self) -> (res: LsColor)
        ensures
            res == self.socket,
    {
        self.socket
    }
}

impl Default for FileColors {
    fn default() -> (res: Self)
        ensures
            res.standard(),
    {
        Self::new()
    }
}

/// The colour and boldness a file type is styled with: each special type
/// its colour, regular files white; directories and executables bold.
pub open spec fn type_style(t: FileType) -> (LsColor, bool) {
    match t {
        FileType::Directory => (LsColor::Rgb(0x5C, 0x9D, 0xFF), true),
        FileType::Symlink => (LsColor::Rgb(0x00, 0xFF, 0xFF), false),
        FileType::Executable => (LsColor::Rgb(0x00, 0xFF, 0x00), true),
        FileType::Pipe => (LsColor::Magenta, false),
        FileType::Socket => (LsColor::Magenta, false),
        FileType::Regular => (LsColor::White, false),
    }
}

/// Get the style (colour, bold) for a file type, for programmatic access.
pub fn style_for_type(file_type: FileType) -> (res: (LsColor, bool))
    ensures
        res == type_style(file_type),
{
    let colors = FileColors::new();
    let color = match file_type {
        FileType::Directory => colors.directory(),
        FileType::Symlink => colors.symlink(),
        FileType::Executable => colors.executable(),
        FileType::Pipe => colors.pipe(),
        FileType::Socket => colors.socket(),
        FileType::Regular => LsColor::White,
    };
    let bold = match file_type {
        FileType::Directory | FileType::Executable => true,
        _ => false,
    };
    (color, bold)
}

/// A name and the file type its classify indicator gives: the indicator is
/// dropped; a name without one is a regular file.
pub open spec fn parse_name_and_type_spec(name: Seq<char>) -> (Seq<char>, FileType) {
    if name.len() == 0 {
        (name, FileType::Regular)
    } else if classify(name.last()) != FileType::Regular {
        (name.drop_last(), classify(name.last()))
    } else {
        (name, FileType::Regular)
    }
}

/// Parse a filename and determine its FileType from classify indicator.
pub fn parse_name_and_type(name: &str) -> (res: (String, FileType))
    ensures
        (res.0@, res.1) == parse_name_and_type_spec(name@),
{
    let n = chars_of(name);
    if n.len() == 0 {
        return (string_from_chars(&n), FileType::Regular);
    }
    let ft = FileType::from_classify_char(n[n.len() - 1]);
    if ft != FileType::Regular {
        let clean = sub_chars_take(&n, n.len() - 1);
        assert(n@.take(n.len() - 1) =~= n@.drop_last());
        (string_from_chars(&clean), ft)
    } else {
        (string_from_chars(&n), FileType::Regular)
    }
}

/// The colour of an entry: by type, or by extension for regular files
/// (white when the extension is unknown).
pub open spec fn color_for_type_spec(name: Seq<char>, t: FileType) -> LsColor {
    match t {
        FileType::Directory => LsColor::Rgb(0x5C, 0x9D, 0xFF),
        FileType::Symlink => LsColor::Rgb(0x00, 0xFF, 0xFF),
        FileType::Executable => LsColor::Rgb(0x00, 0xFF, 0x00),
        FileType::Pipe => LsColor::Magenta,
        FileType::Socket => LsColor::Magenta,
        FileType::Regular => {
            let c = color_for_extension(last_segment(name, '.'));
            if c == LsColor::Reset {
                LsColor::White
            } else {
                c
            }
        },
    }
}

/// Get the color for a given file type and name.
pub fn color_for_type(name: &str, file_type: FileType) -> (res: LsColor)
    ensures
        res == color_for_type_spec(name@, file_type),
{
    let colors = FileColors::new();
    match file_type {
        FileType::Directory => colors.directory(),
        FileType::Symlink => colors.symlink(),
        FileType::Executable => colors.executable(),
        FileType::Pipe => colors.pipe(),
        FileType::Socket => colors.socket(),
        FileType::Regular => {
            let n = chars_of(name);
            let ext = last_segment_exec(&n, '.');
            let ext_s = string_from_chars(&ext);
            let c = colors.for_extension(ext_s.as_str());
            if c == LsColor::Reset {
                LsColor::White
            } else {
                c
            }
        },
    }
}

/// The SGR parameters of a colour after `38;` in a foreground sequence.
pub open spec fn color_params(c: LsColor) -> Seq<char> {
    match c {
        LsColor::Rgb(r, g, b) => "2;"@ + dec(r as nat) + ";"@ + dec(g as nat) + ";"@ + dec(b as nat),
        LsColor::Blue => "5;12"@,
        LsColor::Magenta => "5;13"@,
        LsColor::DarkGrey => "5;8"@,
        LsColor::White => "5;15"@,
        LsColor::Reset => seq![],
    }
}

/// The SGR parameters that set the foreground colour, or none when colour
/// output is switched off.
pub open spec fn fg_params(c: LsColor, colored: bool) -> Seq<char> {
    if !colored {
        seq![]
    } else if c == LsColor::Reset {
        "39"@
    } else {
        "38;"@ + color_params(c)
    }
}

/// A control sequence `ESC [ params m`.
pub open spec fn sgr(params: Seq<char>) -> Seq<char> {
    seq!['\x1b', '['] + params + seq!['m']
}

/// The text between the escapes that set its colour (and bold) and those
/// that reset them; `colored` says whether colour parameters are written.
pub open spec fn styled_text(text: Seq<char>, color: LsColor, bold: bool, colored: bool) -> Seq<char> {
    if bold {
        sgr(fg_params(color, colored)) + sgr("1"@) + text + sgr("0"@)
    } else {
        sgr(fg_params(color, colored)) + text + sgr(fg_params(LsColor::Reset, colored))
    }
}

/// The text styled in one of the two ways crossterm writes it.
pub open spec fn styled_either(res: Seq<char>, text: Seq<char>, color: LsColor, bold: bool) -> bool {
    res == styled_text(text, color, bold, true) || res == styled_text(text, color, bold, false)
}

/// crossterm's `Stylize::with(color)` rendered with `to_string`: the
/// foreground sequence, the text, and the sequence that resets the
/// foreground. crossterm leaves the colour parameters out when the
/// environment variable `NO_COLOR` is set (read once per process), so which
/// of the two forms comes back is not stated.
#[verifier::external_body]
fn styled_plain(text: &str, color: LsColor) -> (res: String)
    ensures
        styled_either(res@, text@, color, false),
{
    let c = match color {
        LsColor::Rgb(r, g, b) => crossterm::style::Color::Rgb { r, g, b },
        LsColor::Blue => crossterm::style::Color::Blue,
        LsColor::Magenta => crossterm::style::Color::Magenta,
        LsColor::DarkGrey => crossterm::style::Color::DarkGrey,
        LsColor::White => crossterm::style::Color::White,
        LsColor::Reset => crossterm::style::Color::Reset,
    };
    text.with(c).to_string()
}

/// crossterm's `Stylize::with(color)` then `.attribute(Attribute::Bold)`,
/// rendered with `to_string`: the foreground sequence, the bold sequence,
/// the text, and a full reset. As for `styled_plain`, whether the colour
/// parameters are written depends on `NO_COLOR` and is not stated.
#[verifier::external_body]
fn styled_bold(text: &str, color: LsColor) -> (res: String)
    ensures
        styled_either(res@, text@, color, true),
{
    let c = match color {
        LsColor::Rgb(r, g, b) => crossterm::style::Color::Rgb { r, g, b },
        LsColor::Blue => crossterm::style::Color::Blue,
        LsColor::Magenta => crossterm::style::Color::Magenta,
        LsColor::DarkGrey => crossterm::style::Color::DarkGrey,
        LsColor::White => crossterm::style::Color::White,
        LsColor::Reset => crossterm::style::Color::Reset,
    };
    text.with(c).attribute(crossterm::style::Attribute::Bold).to_string()
}

/// Directories and executables are shown in bold.
pub open spec fn is_bold(t: FileType) -> bool {
    t == FileType::Directory || t == FileType::Executable
}

/// Apply color and attributes.
pub fn colorize(text: &str, color: LsColor, file_type: FileType) -> (res: String)
    ensures
        styled_either(res@, text@, color, is_bold(file_type)),
{
    match file_type {
        FileType::Directory | FileType::Executable => styled_bold(text, color),
        _ => styled_plain(text, color),
    }
}

/// An entry shown as icon, space, and coloured name.
pub open spec fn decorated(name: Seq<char>, t: FileType, colored: bool) -> Seq<char> {
    icon_for_entry_spec(name, t) + " "@ + styled_text(name, color_for_type_spec(name, t), is_bold(t), colored)
}

fn decorated_exec(name: &str, t: FileType) -> (res: (Vec<char>, Ghost<bool>))
    ensures
        res.0@ == decorated(name@, t, res.1@),
{
    let mut out: Vec<char> = Vec::new();
    push_str(&mut out, icon_for_entry(name, t));
    push_str(&mut out, " ");
    let c = color_for_type(name, t);
    let s = colorize(name, c, t);
    let ghost colored = s@ == styled_text(name@, c, is_bold(t), true);
    push_str(&mut out, s.as_str());
    (out, Ghost(colored))
}

/// A single-column line decorated: blank lines become empty, `total`
/// lines pass through, names get an icon and a colour.
pub open spec fn enhance_simple_spec(line: Seq<char>, colored: bool) -> Seq<char> {
    let t = trim(line);
    if t.len() == 0 {
        seq![]
    } else if starts_with(t, "total "@) {
        line
    } else {
        let (name, ft) = parse_name_and_type_spec(t);
        decorated(name, ft, colored)
    }
}

/// Enhance a single-column line: "filename" or "filename/" etc.
pub fn enhance_simple_line(line: &str) -> (res: String)
    ensures
        exists|colored: bool| res@ == enhance_simple_spec(line@, colored),
{
    let l = chars_of(line);
    let t = trim_chars(&l);
    if t.len() == 0 {
        let r = String::new();
        assert(r@ == enhance_simple_spec(line@, true));
        return r;
    }
    if starts_with_exec(&t, &chars_of("total ")) {
        let r = line.to_string();
        assert(r@ == enhance_simple_spec(line@, true));
        return r;
    }
    let ts = string_from_chars(&t);
    let (name, ft) = parse_name_and_type(ts.as_str());
    let (out, Ghost(colored)) = decorated_exec(name.as_str(), ft);
    let r = string_from_chars(&out);
    assert(r@ == enhance_simple_spec(line@, colored));
    r
}

/// Index just after the `n`-th white-space character of `s` at or after
/// `i`, if there are that many.
pub open spec fn after_nth_ws(s: Seq<char>, i: int, n: nat) -> Option<int>
    decreases s.len() - i, n,
    when 0 <= i
{
    if n == 0 {
        Some(i)
    } else if i >= s.len() {
        None
    } else if is_ws(s[i]) {
        after_nth_ws(s, i + 1, (n - 1) as nat)
    } else {
        after_nth_ws(s, i + 1, n)
    }
}

/// A long-listing line decorated: the first eight white-space separated
/// fields (split at single white-space characters) are kept; the name that
/// follows gets an icon and a colour; for a symlink `name -> target` the
/// name is decorated as a link and the target dimmed. Blank lines become
/// empty; `total` lines and lines with fewer fields pass through.
pub open spec fn enhance_long_spec(line: Seq<char>, name_colored: bool, target_colored: bool) -> Seq<char> {
    let t = trim(line);
    if t.len() == 0 {
        seq![]
    } else if starts_with(t, "total "@) {
        line
    } else {
        match after_nth_ws(t, 0, 8) {
            None => line,
            Some(p) => {
                let prefix = t.take(p);
                let name_part = t.skip(p);
                match find(name_part, " -> "@) {
                    Some(a) => {
                        let link_name = name_part.take(a);
                        let target = name_part.skip(a);
                        let name = parse_name_and_type_spec(link_name).0;
                        prefix + SYMLINK_ICON@ + " "@ + styled_text(name, LsColor::Rgb(0x00, 0xFF, 0xFF), false, name_colored)
                            + styled_text(target, LsColor::DarkGrey, false, target_colored)
                    },
                    None => {
                        let (name, ft) = parse_name_and_type_spec(name_part);
                        prefix + decorated(name, ft, name_colored)
                    },
                }
            },
        }
    }
}

fn after_nth_ws_exec(v: &Vec<char>, n: usize) -> (res: Option<usize>)
    ensures
        match res {
            Some(p) => after_nth_ws(v@, 0, n as nat) == Some(p as int) && p <= v.len(),
            None => after_nth_ws(v@, 0, n as nat) is None,
        },
{
    let mut i: usize = 0;
    let mut left = n;
    while left > 0 && i < v.len()
        invariant
            i <= v.len(),
            left <= n,
            after_nth_ws(v@, 0, n as nat) == after_nth_ws(v@, i as int, left as nat),
        decreases v.len() - i,
    {
        if is_ws_char(v[i]) {
            left = left - 1;
        }
        i = i + 1;
    }
    if left == 0 {
        Some(i)
    } else {
        None
    }
}

/// Enhance a long-listing line: "drwxr-xr-x 2 user group 4.0K Feb 18 12:00 dirname/"
pub fn enhance_long_line(line: &str) -> (res: String)
    ensures
        exists|name_colored: bool, target_colored: bool|
            res@ == enhance_long_spec(line@, name_colored, target_colored),
{
    let l = chars_of(line);
    let t = trim_chars(&l);
    if t.len() == 0 {
        let r = String::new();
        assert(r@ == enhance_long_spec(line@, true, true));
        return r;
    }
    if starts_with_exec(&t, &chars_of("total ")) {
        let r = line.to_string();
        assert(r@ == enhance_long_spec(line@, true, true));
        return r;
    }
    let p = match after_nth_ws_exec(&t, 8) {
        Some(p) => p,
        None => {
            let r = line.to_string();
            assert(r@ == enhance_long_spec(line@, true, true));
            return r;
        },
    };
    let prefix = sub_chars_take(&t, p);
    let name_part = sub_chars(&t, p, t.len());
    assert(name_part@ =~= t@.skip(p as int));
    let mut out = prefix;
    let arrow = chars_of(" -> ");
    match find_exec(&name_part, &arrow) {
        Some(a) => {
            proof {
                crate::text::lemma_find_from_bounds(name_part@, arrow@, 0);
            }
            let link_name = sub_chars_take(&name_part, a);
            let target = sub_chars(&name_part, a, name_part.len());
            assert(target@ =~= name_part@.skip(a as int));
            let ln = string_from_chars(&link_name);
            let (name, _ft) = parse_name_and_type(ln.as_str());
            push_str(&mut out, SYMLINK_ICON);
            push_str(&mut out, " ");
            let s1 = colorize(name.as_str(), LsColor::Rgb(0x00, 0xFF, 0xFF), FileType::Symlink);
            let ghost c1 = s1@ == styled_text(name@, LsColor::Rgb(0x00, 0xFF, 0xFF), false, true);
            push_str(&mut out, s1.as_str());
            let ts = string_from_chars(&target);
            let s2 = styled_plain(ts.as_str(), LsColor::DarkGrey);
            let ghost c2 = s2@ == styled_text(ts@, LsColor::DarkGrey, false, true);
            push_str(&mut out, s2.as_str());
            let r = string_from_chars(&out);
            assert(r@ == enhance_long_spec(line@, c1, c2));
            r
        },
        None => {
            let np = string_from_chars(&name_part);
            let (name, ft) = parse_name_and_type(np.as_str());
            let (d, Ghost(c1)) = decorated_exec(name.as_str(), ft);
            push_chars(&mut out, &d);
            let r = string_from_chars(&out);
            assert(r@ == enhance_long_spec(line@, c1, true));
            r
        },
    }
}

/// `out` is `line` decorated in the long or the single-column format, with
/// colour parameters written or not.
pub open spec fn line_enhanced(line: Seq<char>, out: Seq<char>, is_long: bool) -> bool {
    if is_long {
        exists|c1: bool, c2: bool| out == enhance_long_spec(line, c1, c2)
    } else {
        exists|c: bool| out == enhance_simple_spec(line, c)
    }
}

/// Process raw GNU ls output and add icons + colors.
/// Handles both single-column (-1, default piped) and long (-l) formats.
pub fn enhance_output(raw: &str, is_long: bool) -> (res: String)
    ensures
        raw@.len() == 0 ==> res@.len() == 0,
        raw@.len() > 0 ==> exists|outs: Seq<Seq<char>>|
            {
                &&& outs.len() == lines(raw@).len()
                &&& forall|i: int| 0 <= i < outs.len() ==> line_enhanced(#[trigger] lines(raw@)[i], outs[i], is_long)
                &&& res@ == join(outs, "\n"@)
            },
{
    let r = chars_of(raw);
    if r.len() == 0 {
        return String::new();
    }
    let ls = lines_of(&r);
    let mut out: Vec<Vec<char>> = Vec::new();
    let mut i: usize = 0;
    while i < ls.len()
        invariant
            i <= ls.len(),
            vv(ls@) == lines(raw@),
            out.len() == i,
            forall|j: int| 0 <= j < i ==> line_enhanced(#[trigger] vv(ls@)[j], vv(out@)[j], is_long),
        decreases ls.len() - i,
    {
        let s = string_from_chars(&ls[i]);
        let e = if is_long { enhance_long_line(s.as_str()) } else { enhance_simple_line(s.as_str()) };
        let ec = chars_of(e.as_str());
        let ghost before = out@;
        out.push(ec);
        assert(vv(out@) =~= vv(before).push(ec@));
        assert(vv(ls@)[i as int] == s@);
        i = i + 1;
    }
    let j = join_chars(&out, "\n");
    let res = string_from_chars(&j);
    assert(vv(out@).len() == lines(raw@).len());
    res
}

/// The arguments handed to GNU `ls`: `--color=never` first (the colours are
/// added here), then `-1` unless the listing is long or already in one
/// column, then the user's arguments unchanged.
pub open spec fn ls_args_spec(args: Seq<Seq<char>>, is_long: bool, is_single: bool) -> Seq<Seq<char>> {
    if !is_long && !is_single {
        seq!["--color=never"@, "-1"@] + args
    } else {
        seq!["--color=never"@] + args
    }
}

/// The arguments to run GNU `ls` with, given whether the user asked for the
/// long format and whether for one entry per line.
pub fn effective_ls_args(args: &Vec<String>, is_long: bool, is_single: bool) -> (res: Vec<String>)
    ensures
        sv(res@) == ls_args_spec(sv(args@), is_long, is_single),
{
    let mut res: Vec<String> = Vec::new();
    res.push("--color=never".to_string());
    if !is_long && !is_single {
        res.push("-1".to_string());
    }
    let ghost head = sv(res@);
    let mut i: usize = 0;
    while i < args.len()
        invariant
            i <= args.len(),
            sv(res@) == head + sv(args@).take(i as int),
        decreases args.len() - i,
    {
        let a = args[i].clone();
        let ghost before = res@;
        res.push(a);
        assert(sv(res@) =~= sv(before).push(args@[i as int]@));
        assert(sv(args@).take(i + 1) =~= sv(args@).take(i as int).push(args@[i as int]@));
        i = i + 1;
    }
    assert(sv(args@).take(args.len() as int) =~= sv(args@));
    res
}

/// File names with these extensions (in any case, classify marks
/// ignored) get these icons: part 1 of the icon table.
pub proof fn lemma_icon_table_0()
    ensures
        forall|name: Seq<char>| lower_text(last_segment(strip_classify(name), '.')) == "rs"@ ==> #[trigger] icon_for_name_spec(name) == "\u{e7a8}"@,
        forall|name: Seq<char>| lower_text(last_segment(strip_classify(name), '.')) == "rlib"@ ==> #[trigger] icon_for_name_spec(name) == "\u{e7a8}"@,
        forall|name: Seq<char>| lower_text(last_segment(strip_classify(name), '.')) == "rmeta"@ ==> #[trigger] icon_for_name_spec(name) == "\u{e7a8}"@,
        forall|name: Seq<char>| lower_text(last_segment(strip_classify(name), '.')) == "crate"@ ==> #[trigger] icon_for_name_spec(name) == "\u{e7a8}"@,
        forall|name: Seq<char>| lower_text(last_segment(strip_classify(name), '.')) == "py"@ ==> #[trigger] icon_for_name_spec(name) == "\u{e73c}"@,
        forall|name: Seq<char>| lower_text(last_segment(strip_classify(name), '.')) == "pyc"@ ==> #[trigger] icon_for_name_spec(name) == "\u{e73c}"@,
        forall|name: Seq<char>| lower_text(last_segment(strip_classify(name), '.')) == "pyi"@ ==> #[trigger] icon_for_name_spec(name) == "\u{e73c}"@,
        forall|name: Seq<char>| lower_text(last_segment(strip_classify(name), '.')) == "pyx"@ ==> #[trigger] icon_for_name_spec(name) == "\u{e73c}"@,
        forall|name: Seq<char>| lower_text(last_segment(strip_classify(name), '.')) == "pxd"@ ==> #[trigger] icon_for_name_spec(name) == "\u{e73c}"@,
        forall|name: Seq<char>| lower_text(last_segment(strip_classify(name), '.')) == "rb"@ ==> #[trigger] icon_for_name_spec(name) == "\u{e791}"@,
        forall|name: Seq<char>| lower_text(last_segment(strip_classify(name), '.')) == "erb"@ ==> #[trigger] icon_for_name_spec(name) == "\u{e791}"@,
        forall|name: Seq<char>| lower_text(last_segment(strip_classify(name), '.')) == "rbs"@ ==> #[trigger] icon_for_name_spec(name) == "\u{e791}"@,
        forall|name: Seq<char>| lower_text(last_segment(strip_classify(name), '.')) == "rbi"@ ==> #[trigger] icon_for_name_spec(name) == "\u{e791}"@,
        forall|name: Seq<char>| lower_text(last_segment(strip_classify(name), '.')) == "gemspec"@ ==> #[trigger] icon_for_name_spec(name) == "\u{e791}"@,
        forall|name: Seq<char>| lower_text(last_segment(strip_classify(name), '.')) == "rake"@ ==> #[trigger] icon_for_name_spec(name) == "\u{e791}"@,
        forall|name: Seq<char>| lower_text(last_segment(strip_classify(name), '.')) == "js"@ ==> #[trigger] icon_for_name_spec(name) == "\u{e74e}"@,
        forall|name: Seq<char>| lower_text(last_segment(strip_classify(name), '.')) == "mjs"@ ==> #[trigger] icon_for_name_spec(name) == "\u{e74e}"@,
        forall|name: Seq<char>| lower_text(last_segment(strip_classify(name), '.')) == "cjs"@ ==> #[trigger] icon_for_name_spec(name) == "\u{e74e}"@,
        forall|name: Seq<char>| lower_text(last_segment(strip_classify(name), '.')) == "ts"@ ==> #[trigger] icon_for_name_spec(name) == "\u{e628}"@,
        forall|name: Seq<char>| lower_text(last_segment(strip_classify(name), '.')) == "mts"@ ==> #[trigger] icon_for_name_spec(name) == "\u{e628}"@,
        forall|name: Seq<char>| lower_text(last_segment(strip_classify(name), '.')) == "cts"@ ==> #[trigger] icon_for_name_spec(name) == "\u{e628}"@,
        forall|name: Seq<char>| lower_text(last_segment(strip_classify(name), '.')) == "jsx"@ ==> #[trigger] icon_for_name_spec(name) == "\u{e7ba}"@,
        forall|name: Seq<char>| lower_text(last_segment(strip_classify(name), '.')) == "tsx"@ ==> #[trigger] icon_for_name_spec(name) == "\u{e7ba}"@,
        forall|name: Seq<char>| lower_text(last_segment(strip_classify(name), '.')) == "go"@ ==> #[trigger] icon_for_name_spec(name) == "\u{e627}"@,
        forall|name: Seq<char>| lower_text(last_segment(strip_classify(name), '.')) == "java"@ ==> #[trigger] icon_for_name_spec(name) == "\u{e738}"@,
        forall|name: Seq<char>| lower_text(last_segment(strip_classify(name), '.')) == "c"@ ==> #[trigger] icon_for_name_spec(name) == "\u{e61e}"@,
        forall|name: Seq<char>| lower_text(last_segment(strip_classify(name), '.')) == "h"@ ==> #[trigger] icon_for_name_spec(name) == "\u{e61e}"@,
        forall|name: Seq<char>| lower_text(last_segment(strip_classify(name), '.')) == "cpp"@ ==> #[trigger] icon_for_name_spec(name) == "\u{e61d}"@,
        forall|name: Seq<char>| lower_text(last_segment(strip_classify(name), '.')) == "cc"@ ==> #[trigger] icon_for_name_spec(name) == "\u{e61d}"@,
        forall|name: Seq<char>| lower_text(last_segment(strip_classify(name), '.')) == "hpp"@ ==> #[trigger] icon_for_name_spec(name) == "\u{e61d}"@,
        forall|name: Seq<char>| lower_text(last_segment(strip_classify(name), '.')) == "cs"@ ==> #[trigger] icon_for_name_spec(name) == "\u{f81a}"@,
        forall|name: Seq<char>| lower_text(last_segment(strip_classify(name), '.')) == "swift"@ ==> #[trigger] icon_for_name_spec(name) == "\u{e755}"@,
{
    reveal_strlit("c");
    reveal_strlit("cc");
    reveal_strlit("cjs");
    reveal_strlit("cpp");
    reveal_strlit("crate");
    reveal_strlit("cs");
    reveal_strlit("cts");
    reveal_strlit("erb");
    reveal_strlit("gemspec");
    reveal_strlit("go");
    reveal_strlit("h");
    reveal_strlit("hpp");
    reveal_strlit("java");
    reveal_strlit("js");
    reveal_strlit("jsx");
    reveal_strlit("mjs");
    reveal_strlit("mts");
    reveal_strlit("pxd");
    reveal_strlit("py");
    reveal_strlit("pyc");
    reveal_strlit("pyi");
    reveal_strlit("pyx");
    reveal_strlit("rake");
    reveal_strlit("rb");
    reveal_strlit("rbi");
    reveal_strlit("rbs");
    reveal_strlit("rlib");
    reveal_strlit("rmeta");
    reveal_strlit("rs");
    reveal_strlit("swift");
    reveal_strlit("ts");
    reveal_strlit("tsx");
    assert("c"@.len() == 1 && "c"@[0] == 'c');
    assert("cc"@.len() == 2 && "cc"@[0] == 'c' && "cc"@[1] == 'c');
    assert("cjs"@.len() == 3 && "cjs"@[0] == 'c' && "cjs"@[1] == 'j' && "cjs"@[2] == 's');
    assert("cpp"@.len() == 3 && "cpp"@[0] == 'c' && "cpp"@[1] == 'p' && "cpp"@[2] == 'p');
    assert("crate"@.len() == 5 && "crate"@[0] == 'c' && "crate"@[1] == 'r' && "crate"@[2] == 'a' && "crate"@[3] == 't' && "crate"@[4] == 'e');
    assert("cs"@.len() == 2 && "cs"@[0] == 'c' && "cs"@[1] == 's');
    assert("cts"@.len() == 3 && "cts"@[0] == 'c' && "cts"@[1] == 't' && "cts"@[2] == 's');
    assert("erb"@.len() == 3 && "erb"@[0] == 'e' && "erb"@[1] == 'r' && "erb"@[2] == 'b');
    assert("gemspec"@.len() == 7 && "gemspec"@[0] == 'g' && "gemspec"@[1] == 'e' && "gemspec"@[2] == 'm' && "gemspec"@[3] == 's' && "gemspec"@[4] == 'p' && "gemspec"@[5] == 'e' && "gemspec"@[6] == 'c');
    assert("go"@.len() == 2 && "go"@[0] == 'g' && "go"@[1] == 'o');
    assert("h"@.len() == 1 && "h"@[0] == 'h');
    assert("hpp"@.len() == 3 && "hpp"@[0] == 'h' && "hpp"@[1] == 'p' && "hpp"@[2] == 'p');
    assert("java"@.len() == 4 && "java"@[0] == 'j' && "java"@[1] == 'a' && "java"@[2] == 'v' && "java"@[3] == 'a');
    assert("js"@.len() == 2 && "js"@[0] == 'j' && "js"@[1] == 's');
    assert("jsx"@.len() == 3 && "jsx"@[0] == 'j' && "jsx"@[1] == 's' && "jsx"@[2] == 'x');
    assert("mjs"@.len() == 3 && "mjs"@[0] == 'm' && "mjs"@[1] == 'j' && "mjs"@[2] == 's');
    assert("mts"@.len() == 3 && "mts"@[0] == 'm' && "mts"@[1] == 't' && "mts"@[2] == 's');
    assert("pxd"@.len() == 3 && "pxd"@[0] == 'p' && "pxd"@[1] == 'x' && "pxd"@[2] == 'd');
    assert("py"@.len() == 2 && "py"@[0] == 'p' && "py"@[1] == 'y');
    assert("pyc"@.len() == 3 && "pyc"@[0] == 'p' && "pyc"@[1] == 'y' && "pyc"@[2] == 'c');
    assert("pyi"@.len() == 3 && "pyi"@[0] == 'p' && "pyi"@[1] == 'y' && "pyi"@[2] == 'i');
    assert("pyx"@.len() == 3 && "pyx"@[0] == 'p' && "pyx"@[1] == 'y' && "pyx"@[2] == 'x');
    assert("rake"@.len() == 4 && "rake"@[0] == 'r' && "rake"@[1] == 'a' && "rake"@[2] == 'k' && "rake"@[3] == 'e');
    assert("rb"@.len() == 2 && "rb"@[0] == 'r' && "rb"@[1] == 'b');
    assert("rbi"@.len() == 3 && "rbi"@[0] == 'r' && "rbi"@[1] == 'b' && "rbi"@[2] == 'i');
    assert("rbs"@.len() == 3 && "rbs"@[0] == 'r' && "rbs"@[1] == 'b' && "rbs"@[2] == 's');
    assert("rlib"@.len() == 4 && "rlib"@[0] == 'r' && "rlib"@[1] == 'l' && "rlib"@[2] == 'i' && "rlib"@[3] == 'b');
    assert("rmeta"@.len() == 5 && "rmeta"@[0] == 'r' && "rmeta"@[1] == 'm' && "rmeta"@[2] == 'e' && "rmeta"@[3] == 't' && "rmeta"@[4] == 'a');
    assert("rs"@.len() == 2 && "rs"@[0] == 'r' && "rs"@[1] == 's');
    assert("swift"@.len() == 5 && "swift"@[0] == 's' && "swift"@[1] == 'w' && "swift"@[2] == 'i' && "swift"@[3] == 'f' && "swift"@[4] == 't');
    assert("ts"@.len() == 2 && "ts"@[0] == 't' && "ts"@[1] == 's');
    assert("tsx"@.len() == 3 && "tsx"@[0] == 't' && "tsx"@[1] == 's' && "tsx"@[2] == 'x');
    assert(ext_icon("rs"@) == Some("\u{e7a8}"@));
    assert(ext_icon("rlib"@) == Some("\u{e7a8}"@));
    assert(ext_icon("rmeta"@) == Some("\u{e7a8}"@));
    assert(ext_icon("crate"@) == Some("\u{e7a8}"@));
    assert(ext_icon("py"@) == Some("\u{e73c}"@));
    assert(ext_icon("pyc"@) == Some("\u{e73c}"@));
    assert(ext_icon("pyi"@) == Some("\u{e73c}"@));
    assert(ext_icon("pyx"@) == Some("\u{e73c}"@));
    assert(ext_icon("pxd"@) == Some("\u{e73c}"@));
    assert(ext_icon("rb"@) == Some("\u{e791}"@));
    assert(ext_icon("erb"@) == Some("\u{e791}"@));
    assert(ext_icon("rbs"@) == Some("\u{e791}"@));
    assert(ext_icon("rbi"@) == Some("\u{e791}"@));
    assert(ext_icon("gemspec"@) == Some("\u{e791}"@));
    assert(ext_icon("rake"@) == Some("\u{e791}"@));
    assert(ext_icon("js"@) == Some("\u{e74e}"@));
    assert(ext_icon("mjs"@) == Some("\u{e74e}"@));
    assert(ext_icon("cjs"@) == Some("\u{e74e}"@));
    assert(ext_icon("ts"@) == Some("\u{e628}"@));
    assert(ext_icon("mts"@) == Some("\u{e628}"@));
    assert(ext_icon("cts"@) == Some("\u{e628}"@));
    assert(ext_icon("jsx"@) == Some("\u{e7ba}"@));
    assert(ext_icon("tsx"@) == Some("\u{e7ba}"@));
    assert(ext_icon("go"@) == Some("\u{e627}"@));
    assert(ext_icon("java"@) == Some("\u{e738}"@));
    assert(ext_icon("c"@) == Some("\u{e61e}"@));
    assert(ext_icon("h"@) == Some("\u{e61e}"@));
    assert(ext_icon("cpp"@) == Some("\u{e61d}"@));
    assert(ext_icon("cc"@) == Some("\u{e61d}"@));
    assert(ext_icon("hpp"@) == Some("\u{e61d}"@));
    assert(ext_icon("cs"@) == Some("\u{f81a}"@));
    assert(ext_icon("swift"@) == Some("\u{e755}"@));
}

/// File names with these extensions (in any case, classify marks
/// ignored) get these icons: part 2 of the icon table.
pub proof fn lemma_icon_table_1()
    ensures
        forall|name: Seq<char>| lower_text(last_segment(strip_classify(name), '.')) == "kt"@ ==> #[trigger] icon_for_name_spec(name) == "\u{e634}"@,
        forall|name: Seq<char>| lower_text(last_segment(strip_classify(name), '.')) == "dart"@ ==> #[trigger] icon_for_name_spec(name) == "\u{e798}"@,
        forall|name: Seq<char>| lower_text(last_segment(strip_classify(name), '.')) == "lua"@ ==> #[trigger] icon_for_name_spec(name) == "\u{e620}"@,
        forall|name: Seq<char>| lower_text(last_segment(strip_classify(name), '.')) == "php"@ ==> #[trigger] icon_for_name_spec(name) == "\u{e73d}"@,
        forall|name: Seq<char>| lower_text(last_segment(strip_classify(name), '.')) == "sh"@ ==> #[trigger] icon_for_name_spec(name) == "\u{e795}"@,
        forall|name: Seq<char>| lower_text(last_segment(strip_classify(name), '.')) == "bash"@ ==> #[trigger] icon_for_name_spec(name) == "\u{e795}"@,
        forall|name: Seq<char>| lower_text(last_segment(strip_classify(name), '.')) == "zsh"@ ==> #[trigger] icon_for_name_spec(name) == "\u{e795}"@,
        forall|name: Seq<char>| lower_text(last_segment(strip_classify(name), '.')) == "fish"@ ==> #[trigger] icon_for_name_spec(name) == "\u{e795}"@,
        forall|name: Seq<char>| lower_text(last_segment(strip_classify(name), '.')) == "sql"@ ==> #[trigger] icon_for_name_spec(name) == "\u{e706}"@,
        forall|name: Seq<char>| lower_text(last_segment(strip_classify(name), '.')) == "sqlite"@ ==> #[trigger] icon_for_name_spec(name) == "\u{e706}"@,
        forall|name: Seq<char>| lower_text(last_segment(strip_classify(name), '.')) == "sqlite3"@ ==> #[trigger] icon_for_name_spec(name) == "\u{e706}"@,
        forall|name: Seq<char>| lower_text(last_segment(strip_classify(name), '.')) == "db"@ ==> #[trigger] icon_for_name_spec(name) == "\u{e706}"@,
        forall|name: Seq<char>| lower_text(last_segment(strip_classify(name), '.')) == "cu"@ ==> #[trigger] icon_for_name_spec(name) == "\u{e64b}"@,
        forall|name: Seq<char>| lower_text(last_segment(strip_classify(name), '.')) == "cuh"@ ==> #[trigger] icon_for_name_spec(name) == "\u{e64b}"@,
        forall|name: Seq<char>| lower_text(last_segment(strip_classify(name), '.')) == "onnx"@ ==> #[trigger] icon_for_name_spec(name) == "\u{e64b}"@,
        forall|name: Seq<char>| lower_text(last_segment(strip_classify(name), '.')) == "pt"@ ==> #[trigger] icon_for_name_spec(name) == "\u{e64b}"@,
        forall|name: Seq<char>| lower_text(last_segment(strip_classify(name), '.')) == "pth"@ ==> #[trigger] icon_for_name_spec(name) == "\u{e64b}"@,
        forall|name: Seq<char>| lower_text(last_segment(strip_classify(name), '.')) == "safetensors"@ ==> #[trigger] icon_for_name_spec(name) == "\u{e64b}"@,
        forall|name: Seq<char>| lower_text(last_segment(strip_classify(name), '.')) == "r"@ ==> #[trigger] icon_for_name_spec(name) == "\u{f25d}"@,
        forall|name: Seq<char>| lower_text(last_segment(strip_classify(name), '.')) == "scala"@ ==> #[trigger] icon_for_name_spec(name) == "\u{e737}"@,
        forall|name: Seq<char>| lower_text(last_segment(strip_classify(name), '.')) == "elm"@ ==> #[trigger] icon_for_name_spec(name) == "\u{e62c}"@,
        forall|name: Seq<char>| lower_text(last_segment(strip_classify(name), '.')) == "ex"@ ==> #[trigger] icon_for_name_spec(name) == "\u{e62d}"@,
        forall|name: Seq<char>| lower_text(last_segment(strip_classify(name), '.')) == "exs"@ ==> #[trigger] icon_for_name_spec(name) == "\u{e62d}"@,
        forall|name: Seq<char>| lower_text(last_segment(strip_classify(name), '.')) == "erl"@ ==> #[trigger] icon_for_name_spec(name) == "\u{e7b1}"@,
{
    reveal_strlit("bash");
    reveal_strlit("c");
    reveal_strlit("cc");
    reveal_strlit("cjs");
    reveal_strlit("cpp");
    reveal_strlit("crate");
    reveal_strlit("cs");
    reveal_strlit("cts");
    reveal_strlit("cu");
    reveal_strlit("cuh");
    reveal_strlit("dart");
    reveal_strlit("db");
    reveal_strlit("elm");
    reveal_strlit("erb");
    reveal_strlit("erl");
    reveal_strlit("ex");
    reveal_strlit("exs");
    reveal_strlit("fish");
    reveal_strlit("gemspec");
    reveal_strlit("go");
    reveal_strlit("h");
    reveal_strlit("hpp");
    reveal_strlit("java");
    reveal_strlit("js");
    reveal_strlit("jsx");
    reveal_strlit("kt");
    reveal_strlit("lua");
    reveal_strlit("mjs");
    reveal_strlit("mts");
    reveal_strlit("onnx");
    reveal_strlit("php");
    reveal_strlit("pt");
    reveal_strlit("pth");
    reveal_strlit("pxd");
    reveal_strlit("py");
    reveal_strlit("pyc");
    reveal_strlit("pyi");
    reveal_strlit("pyx");
    reveal_strlit("r");
    reveal_strlit("rake");
    reveal_strlit("rb");
    reveal_strlit("rbi");
    reveal_strlit("rbs");
    reveal_strlit("rlib");
    reveal_strlit("rmeta");
    reveal_strlit("rs");
    reveal_strlit("safetensors");
    reveal_strlit("scala");
    reveal_strlit("sh");
    reveal_strlit("sql");
    reveal_strlit("sqlite");
    reveal_strlit("sqlite3");
    reveal_strlit("swift");
    reveal_strlit("ts");
    reveal_strlit("tsx");
    reveal_strlit("zsh");
    assert("bash"@.len() == 4 && "bash"@[0] == 'b' && "bash"@[1] == 'a' && "bash"@[2] == 's' && "bash"@[3] == 'h');
    assert("c"@.len() == 1 && "c"@[0] == 'c');
    assert("cc"@.len() == 2 && "cc"@[0] == 'c' && "cc"@[1] == 'c');
    assert("cjs"@.len() == 3 && "cjs"@[0] == 'c' && "cjs"@[1] == 'j' && "cjs"@[2] == 's');
    assert("cpp"@.len() == 3 && "cpp"@[0] == 'c' && "cpp"@[1] == 'p' && "cpp"@[2] == 'p');
    assert("crate"@.len() == 5 && "crate"@[0] == 'c' && "crate"@[1] == 'r' && "crate"@[2] == 'a' && "crate"@[3] == 't' && "crate"@[4] == 'e');
    assert("cs"@.len() == 2 && "cs"@[0] == 'c' && "cs"@[1] == 's');
    assert("cts"@.len() == 3 && "cts"@[0] == 'c' && "cts"@[1] == 't' && "cts"@[2] == 's');
    assert("cu"@.len() == 2 && "cu"@[0] == 'c' && "cu"@[1] == 'u');
    assert("cuh"@.len() == 3 && "cuh"@[0] == 'c' && "cuh"@[1] == 'u' && "cuh"@[2] == 'h');
    assert("dart"@.len() == 4 && "dart"@[0] == 'd' && "dart"@[1] == 'a' && "dart"@[2] == 'r' && "dart"@[3] == 't');
    assert("db"@.len() == 2 && "db"@[0] == 'd' && "db"@[1] == 'b');
    assert("elm"@.len() == 3 && "elm"@[0] == 'e' && "elm"@[1] == 'l' && "elm"@[2] == 'm');
    assert("erb"@.len() == 3 && "erb"@[0] == 'e' && "erb"@[1] == 'r' && "erb"@[2] == 'b');
    assert("erl"@.len() == 3 && "erl"@[0] == 'e' && "erl"@[1] == 'r' && "erl"@[2] == 'l');
    assert("ex"@.len() == 2 && "ex"@[0] == 'e' && "ex"@[1] == 'x');
    assert("exs"@.len() == 3 && "exs"@[0] == 'e' && "exs"@[1] == 'x' && "exs"@[2] == 's');
    assert("fish"@.len() == 4 && "fish"@[0] == 'f' && "fish"@[1] == 'i' && "fish"@[2] == 's' && "fish"@[3] == 'h');
    assert("gemspec"@.len() == 7 && "gemspec"@[0] == 'g' && "gemspec"@[1] == 'e' && "gemspec"@[2] == 'm' && "gemspec"@[3] == 's' && "gemspec"@[4] == 'p' && "gemspec"@[5] == 'e' && "gemspec"@[6] == 'c');
    assert("go"@.len() == 2 && "go"@[0] == 'g' && "go"@[1] == 'o');
    assert("h"@.len() == 1 && "h"@[0] == 'h');
    assert("hpp"@.len() == 3 && "hpp"@[0] == 'h' && "hpp"@[1] == 'p' && "hpp"@[2] == 'p');
    assert("java"@.len() == 4 && "java"@[0] == 'j' && "java"@[1] == 'a' && "java"@[2] == 'v' && "java"@[3] == 'a');
    assert("js"@.len() == 2 && "js"@[0] == 'j' && "js"@[1] == 's');
    assert("jsx"@.len() == 3 && "jsx"@[0] == 'j' && "jsx"@[1] == 's' && "jsx"@[2] == 'x');
    assert("kt"@.len() == 2 && "kt"@[0] == 'k' && "kt"@[1] == 't');
    assert("lua"@.len() == 3 && "lua"@[0] == 'l' && "lua"@[1] == 'u' && "lua"@[2] == 'a');
    assert("mjs"@.len() == 3 && "mjs"@[0] == 'm' && "mjs"@[1] == 'j' && "mjs"@[2] == 's');
    assert("mts"@.len() == 3 && "mts"@[0] == 'm' && "mts"@[1] == 't' && "mts"@[2] == 's');
    assert("onnx"@.len() == 4 && "onnx"@[0] == 'o' && "onnx"@[1] == 'n' && "onnx"@[2] == 'n' && "onnx"@[3] == 'x');
    assert("php"@.len() == 3 && "php"@[0] == 'p' && "php"@[1] == 'h' && "php"@[2] == 'p');
    assert("pt"@.len() == 2 && "pt"@[0] == 'p' && "pt"@[1] == 't');
    assert("pth"@.len() == 3 && "pth"@[0] == 'p' && "pth"@[1] == 't' && "pth"@[2] == 'h');
    assert("pxd"@.len() == 3 && "pxd"@[0] == 'p' && "pxd"@[1] == 'x' && "pxd"@[2] == 'd');
    assert("py"@.len() == 2 && "py"@[0] == 'p' && "py"@[1] == 'y');
    assert("pyc"@.len() == 3 && "pyc"@[0] == 'p' && "pyc"@[1] == 'y' && "pyc"@[2] == 'c');
    assert("pyi"@.len() == 3 && "pyi"@[0] == 'p' && "pyi"@[1] == 'y' && "pyi"@[2] == 'i');
    assert("pyx"@.len() == 3 && "pyx"@[0] == 'p' && "pyx"@[1] == 'y' && "pyx"@[2] == 'x');
    assert("r"@.len() == 1 && "r"@[0] == 'r');
    assert("rake"@.len() == 4 && "rake"@[0] == 'r' && "rake"@[1] == 'a' && "rake"@[2] == 'k' && "rake"@[3] == 'e');
    assert("rb"@.len() == 2 && "rb"@[0] == 'r' && "rb"@[1] == 'b');
    assert("rbi"@.len() == 3 && "rbi"@[0] == 'r' && "rbi"@[1] == 'b' && "rbi"@[2] == 'i');
    assert("rbs"@.len() == 3 && "rbs"@[0] == 'r' && "rbs"@[1] == 'b' && "rbs"@[2] == 's');
    assert("rlib"@.len() == 4 && "rlib"@[0] == 'r' && "rlib"@[1] == 'l' && "rlib"@[2] == 'i' && "rlib"@[3] == 'b');
    assert("rmeta"@.len() == 5 && "rmeta"@[0] == 'r' && "rmeta"@[1] == 'm' && "rmeta"@[2] == 'e' && "rmeta"@[3] == 't' && "rmeta"@[4] == 'a');
    assert("rs"@.len() == 2 && "rs"@[0] == 'r' && "rs"@[1] == 's');
    assert("safetensors"@.len() == 11 && "safetensors"@[0] == 's' && "safetensors"@[1] == 'a' && "safetensors"@[2] == 'f' && "safetensors"@[3] == 'e' && "safetensors"@[4] == 't' && "safetensors"@[5] == 'e' && "safetensors"@[6] == 'n' && "safetensors"@[7] == 's' && "safetensors"@[8] == 'o' && "safetensors"@[9] == 'r' && "safetensors"@[10] == 's');
    assert("scala"@.len() == 5 && "scala"@[0] == 's' && "scala"@[1] == 'c' && "scala"@[2] == 'a' && "scala"@[3] == 'l' && "scala"@[4] == 'a');
    assert("sh"@.len() == 2 && "sh"@[0] == 's' && "sh"@[1] == 'h');
    assert("sql"@.len() == 3 && "sql"@[0] == 's' && "sql"@[1] == 'q' && "sql"@[2] == 'l');
    assert("sqlite"@.len() == 6 && "sqlite"@[0] == 's' && "sqlite"@[1] == 'q' && "sqlite"@[2] == 'l' && "sqlite"@[3] == 'i' && "sqlite"@[4] == 't' && "sqlite"@[5] == 'e');
    assert("sqlite3"@.len() == 7 && "sqlite3"@[0] == 's' && "sqlite3"@[1] == 'q' && "sqlite3"@[2] == 'l' && "sqlite3"@[3] == 'i' && "sqlite3"@[4] == 't' && "sqlite3"@[5] == 'e' && "sqlite3"@[6] == '3');
    assert("swift"@.len() == 5 && "swift"@[0] == 's' && "swift"@[1] == 'w' && "swift"@[2] == 'i' && "swift"@[3] == 'f' && "swift"@[4] == 't');
    assert("ts"@.len() == 2 && "ts"@[0] == 't' && "ts"@[1] == 's');
    assert("tsx"@.len() == 3 && "tsx"@[0] == 't' && "tsx"@[1] == 's' && "tsx"@[2] == 'x');
    assert("zsh"@.len() == 3 && "zsh"@[0] == 'z' && "zsh"@[1] == 's' && "zsh"@[2] == 'h');
    assert(ext_icon("kt"@) == Some("\u{e634}"@));
    assert(ext_icon("dart"@) == Some("\u{e798}"@));
    assert(ext_icon("lua"@) == Some("\u{e620}"@));
    assert(ext_icon("php"@) == Some("\u{e73d}"@));
    assert(ext_icon("sh"@) == Some("\u{e795}"@));
    assert(ext_icon("bash"@) == Some("\u{e795}"@));
    assert(ext_icon("zsh"@) == Some("\u{e795}"@));
    assert(ext_icon("fish"@) == Some("\u{e795}"@));
    assert(ext_icon("sql"@) == Some("\u{e706}"@));
    assert(ext_icon("sqlite"@) == Some("\u{e706}"@));
    assert(ext_icon("sqlite3"@) == Some("\u{e706}"@));
    assert(ext_icon("db"@) == Some("\u{e706}"@));
    assert(ext_icon("cu"@) == Some("\u{e64b}"@));
    assert(ext_icon("cuh"@) == Some("\u{e64b}"@));
    assert(ext_icon("onnx"@) == Some("\u{e64b}"@));
    assert(ext_icon("pt"@) == Some("\u{e64b}"@));
    assert(ext_icon("pth"@) == Some("\u{e64b}"@));
    assert(ext_icon("safetensors"@) == Some("\u{e64b}"@));
    assert(ext_icon("r"@) == Some("\u{f25d}"@));
    assert(ext_icon("scala"@) == Some("\u{e737}"@));
    assert(ext_icon("elm"@) == Some("\u{e62c}"@));
    assert(ext_icon("ex"@) == Some("\u{e62d}"@));
    assert(ext_icon("exs"@) == Some("\u{e62d}"@));
    assert(ext_icon("erl"@) == Some("\u{e7b1}"@));
}

/// File names with these extensions (in any case, classify marks
/// ignored) get these icons: part 3 of the icon table.
pub proof fn lemma_icon_table_2()
    ensures
        forall|name: Seq<char>| lower_text(last_segment(strip_classify(name), '.')) == "hs"@ ==> #[trigger] icon_for_name_spec(name) == "\u{e777}"@,
        forall|name: Seq<char>| lower_text(last_segment(strip_classify(name), '.')) == "vim"@ ==> #[trigger] icon_for_name_spec(name) == "\u{e62b}"@,
        forall|name: Seq<char>| lower_text(last_segment(strip_classify(name), '.')) == "zig"@ ==> #[trigger] icon_for_name_spec(name) == "\u{e6a9}"@,
        forall|name: Seq<char>| lower_text(last_segment(strip_classify(name), '.')) == "html"@ ==> #[trigger] icon_for_name_spec(name) == "\u{e736}"@,
        forall|name: Seq<char>| lower_text(last_segment(strip_classify(name), '.')) == "htm"@ ==> #[trigger] icon_for_name_spec(name) == "\u{e736}"@,
        forall|name: Seq<char>| lower_text(last_segment(strip_classify(name), '.')) == "css"@ ==> #[trigger] icon_for_name_spec(name) == "\u{e749}"@,
        forall|name: Seq<char>| lower_text(last_segment(strip_classify(name), '.')) == "scss"@ ==> #[trigger] icon_for_name_spec(name) == "\u{e749}"@,
        forall|name: Seq<char>| lower_text(last_segment(strip_classify(name), '.')) == "sass"@ ==> #[trigger] icon_for_name_spec(name) == "\u{e749}"@,
        forall|name: Seq<char>| lower_text(last_segment(strip_classify(name), '.')) == "vue"@ ==> #[trigger] icon_for_name_spec(name) == "\u{e6a0}"@,
        forall|name: Seq<char>| lower_text(last_segment(strip_classify(name), '.')) == "svelte"@ ==> #[trigger] icon_for_name_spec(name) == "\u{e697}"@,
        forall|name: Seq<char>| lower_text(last_segment(strip_classify(name), '.')) == "wasm"@ ==> #[trigger] icon_for_name_spec(name) == "\u{e6a1}"@,
        forall|name: Seq<char>| lower_text(last_segment(strip_classify(name), '.')) == "json"@ ==> #[trigger] icon_for_name_spec(name) == "\u{e60b}"@,
        forall|name: Seq<char>| lower_text(last_segment(strip_classify(name), '.')) == "jsonl"@ ==> #[trigger] icon_for_name_spec(name) == "\u{e60b}"@,
        forall|name: Seq<char>| lower_text(last_segment(strip_classify(name), '.')) == "yaml"@ ==> #[trigger] icon_for_name_spec(name) == "\u{e6a8}"@,
        forall|name: Seq<char>| lower_text(last_segment(strip_classify(name), '.')) == "yml"@ ==> #[trigger] icon_for_name_spec(name) == "\u{e6a8}"@,
        forall|name: Seq<char>| lower_text(last_segment(strip_classify(name), '.')) == "toml"@ ==> #[trigger] icon_for_name_spec(name) == "\u{e6b2}"@,
        forall|name: Seq<char>| lower_text(last_segment(strip_classify(name), '.')) == "xml"@ ==> #[trigger] icon_for_name_spec(name) == "\u{e619}"@,
{
    reveal_strlit("bash");
    reveal_strlit("c");
    reveal_strlit("cc");
    reveal_strlit("cjs");
    reveal_strlit("cpp");
    reveal_strlit("crate");
    reveal_strlit("cs");
    reveal_strlit("css");
    reveal_strlit("cts");
    reveal_strlit("cu");
    reveal_strlit("cuh");
    reveal_strlit("dart");
    reveal_strlit("db");
    reveal_strlit("elm");
    reveal_strlit("erb");
    reveal_strlit("erl");
    reveal_strlit("ex");
    reveal_strlit("exs");
    reveal_strlit("fish");
    reveal_strlit("gemspec");
    reveal_strlit("go");
    reveal_strlit("h");
    reveal_strlit("hpp");
    reveal_strlit("hs");
    reveal_strlit("htm");
    reveal_strlit("html");
    reveal_strlit("java");
    reveal_strlit("js");
    reveal_strlit("json");
    reveal_strlit("jsonl");
    reveal_strlit("jsx");
    reveal_strlit("kt");
    reveal_strlit("lua");
    reveal_strlit("mjs");
    reveal_strlit("mts");
    reveal_strlit("onnx");
    reveal_strlit("php");
    reveal_strlit("pt");
    reveal_strlit("pth");
    reveal_strlit("pxd");
    reveal_strlit("py");
    reveal_strlit("pyc");
    reveal_strlit("pyi");
    reveal_strlit("pyx");
    reveal_strlit("r");
    reveal_strlit("rake");
    reveal_strlit("rb");
    reveal_strlit("rbi");
    reveal_strlit("rbs");
    reveal_strlit("rlib");
    reveal_strlit("rmeta");
    reveal_strlit("rs");
    reveal_strlit("safetensors");
    reveal_strlit("sass");
    reveal_strlit("scala");
    reveal_strlit("scss");
    reveal_strlit("sh");
    reveal_strlit("sql");
    reveal_strlit("sqlite");
    reveal_strlit("sqlite3");
    reveal_strlit("svelte");
    reveal_strlit("swift");
    reveal_strlit("toml");
    reveal_strlit("ts");
    reveal_strlit("tsx");
    reveal_strlit("vim");
    reveal_strlit("vue");
    reveal_strlit("wasm");
    reveal_strlit("xml");
    reveal_strlit("yaml");
    reveal_strlit("yml");
    reveal_strlit("zig");
    reveal_strlit("zsh");
    assert("bash"@.len() == 4 && "bash"@[0] == 'b' && "bash"@[1] == 'a' && "bash"@[2] == 's' && "bash"@[3] == 'h');
    assert("c"@.len() == 1 && "c"@[0] == 'c');
    assert("cc"@.len() == 2 && "cc"@[0] == 'c' && "cc"@[1] == 'c');
    assert("cjs"@.len() == 3 && "cjs"@[0] == 'c' && "cjs"@[1] == 'j' && "cjs"@[2] == 's');
    assert("cpp"@.len() == 3 && "cpp"@[0] == 'c' && "cpp"@[1] == 'p' && "cpp"@[2] == 'p');
    assert("crate"@.len() == 5 && "crate"@[0] == 'c' && "crate"@[1] == 'r' && "crate"@[2] == 'a' && "crate"@[3] == 't' && "crate"@[4] == 'e');
    assert("cs"@.len() == 2 && "cs"@[0] == 'c' && "cs"@[1] == 's');
    assert("css"@.len() == 3 && "css"@[0] == 'c' && "css"@[1] == 's' && "css"@[2] == 's');
    assert("cts"@.len() == 3 && "cts"@[0] == 'c' && "cts"@[1] == 't' && "cts"@[2] == 's');
    assert("cu"@.len() == 2 && "cu"@[0] == 'c' && "cu"@[1] == 'u');
    assert("cuh"@.len() == 3 && "cuh"@[0] == 'c' && "cuh"@[1] == 'u' && "cuh"@[2] == 'h');
    assert("dart"@.len() == 4 && "dart"@[0] == 'd' && "dart"@[1] == 'a' && "dart"@[2] == 'r' && "dart"@[3] == 't');
    assert("db"@.len() == 2 && "db"@[0] == 'd' && "db"@[1] == 'b');
    assert("elm"@.len() == 3 && "elm"@[0] == 'e' && "elm"@[1] == 'l' && "elm"@[2] == 'm');
    assert("erb"@.len() == 3 && "erb"@[0] == 'e' && "erb"@[1] == 'r' && "erb"@[2] == 'b');
    assert("erl"@.len() == 3 && "erl"@[0] == 'e' && "erl"@[1] == 'r' && "erl"@[2] == 'l');
    assert("ex"@.len() == 2 && "ex"@[0] == 'e' && "ex"@[1] == 'x');
    assert("exs"@.len() == 3 && "exs"@[0] == 'e' && "exs"@[1] == 'x' && "exs"@[2] == 's');
    assert("fish"@.len() == 4 && "fish"@[0] == 'f' && "fish"@[1] == 'i' && "fish"@[2] == 's' && "fish"@[3] == 'h');
    assert("gemspec"@.len() == 7 && "gemspec"@[0] == 'g' && "gemspec"@[1] == 'e' && "gemspec"@[2] == 'm' && "gemspec"@[3] == 's' && "gemspec"@[4] == 'p' && "gemspec"@[5] == 'e' && "gemspec"@[6] == 'c');
    assert("go"@.len() == 2 && "go"@[0] == 'g' && "go"@[1] == 'o');
    assert("h"@.len() == 1 && "h"@[0] == 'h');
    assert("hpp"@.len() == 3 && "hpp"@[0] == 'h' && "hpp"@[1] == 'p' && "hpp"@[2] == 'p');
    assert("hs"@.len() == 2 && "hs"@[0] == 'h' && "hs"@[1] == 's');
    assert("htm"@.len() == 3 && "htm"@[0] == 'h' && "htm"@[1] == 't' && "htm"@[2] == 'm');
    assert("html"@.len() == 4 && "html"@[0] == 'h' && "html"@[1] == 't' && "html"@[2] == 'm' && "html"@[3] == 'l');
    assert("java"@.len() == 4 && "java"@[0] == 'j' && "java"@[1] == 'a' && "java"@[2] == 'v' && "java"@[3] == 'a');
    assert("js"@.len() == 2 && "js"@[0] == 'j' && "js"@[1] == 's');
    assert("json"@.len() == 4 && "json"@[0] == 'j' && "json"@[1] == 's' && "json"@[2] == 'o' && "json"@[3] == 'n');
    assert("jsonl"@.len() == 5 && "jsonl"@[0] == 'j' && "jsonl"@[1] == 's' && "jsonl"@[2] == 'o' && "jsonl"@[3] == 'n' && "jsonl"@[4] == 'l');
    assert("jsx"@.len() == 3 && "jsx"@[0] == 'j' && "jsx"@[1] == 's' && "jsx"@[2] == 'x');
    assert("kt"@.len() == 2 && "kt"@[0] == 'k' && "kt"@[1] == 't');
    assert("lua"@.len() == 3 && "lua"@[0] == 'l' && "lua"@[1] == 'u' && "lua"@[2] == 'a');
    assert("mjs"@.len() == 3 && "mjs"@[0] == 'm' && "mjs"@[1] == 'j' && "mjs"@[2] == 's');
    assert("mts"@.len() == 3 && "mts"@[0] == 'm' && "mts"@[1] == 't' && "mts"@[2] == 's');
    assert("onnx"@.len() == 4 && "onnx"@[0] == 'o' && "onnx"@[1] == 'n' && "onnx"@[2] == 'n' && "onnx"@[3] == 'x');
    assert("php"@.len() == 3 && "php"@[0] == 'p' && "php"@[1] == 'h' && "php"@[2] == 'p');
    assert("pt"@.len() == 2 && "pt"@[0] == 'p' && "pt"@[1] == 't');
    assert("pth"@.len() == 3 && "pth"@[0] == 'p' && "pth"@[1] == 't' && "pth"@[2] == 'h');
    assert("pxd"@.len() == 3 && "pxd"@[0] == 'p' && "pxd"@[1] == 'x' && "pxd"@[2] == 'd');
    assert("py"@.len() == 2 && "py"@[0] == 'p' && "py"@[1] == 'y');
    assert("pyc"@.len() == 3 && "pyc"@[0] == 'p' && "pyc"@[1] == 'y' && "pyc"@[2] == 'c');
    assert("pyi"@.len() == 3 && "pyi"@[0] == 'p' && "pyi"@[1] == 'y' && "pyi"@[2] == 'i');
    assert("pyx"@.len() == 3 && "pyx"@[0] == 'p' && "pyx"@[1] == 'y' && "pyx"@[2] == 'x');
    assert("r"@.len() == 1 && "r"@[0] == 'r');
    assert("rake"@.len() == 4 && "rake"@[0] == 'r' && "rake"@[1] == 'a' && "rake"@[2] == 'k' && "rake"@[3] == 'e');
    assert("rb"@.len() == 2 && "rb"@[0] == 'r' && "rb"@[1] == 'b');
    assert("rbi"@.len() == 3 && "rbi"@[0] == 'r' && "rbi"@[1] == 'b' && "rbi"@[2] == 'i');
    assert("rbs"@.len() == 3 && "rbs"@[0] == 'r' && "rbs"@[1] == 'b' && "rbs"@[2] == 's');
    assert("rlib"@.len() == 4 && "rlib"@[0] == 'r' && "rlib"@[1] == 'l' && "rlib"@[2] == 'i' && "rlib"@[3] == 'b');
    assert("rmeta"@.len() == 5 && "rmeta"@[0] == 'r' && "rmeta"@[1] == 'm' && "rmeta"@[2] == 'e' && "rmeta"@[3] == 't' && "rmeta"@[4] == 'a');
    assert("rs"@.len() == 2 && "rs"@[0] == 'r' && "rs"@[1] == 's');
    assert("safetensors"@.len() == 11 && "safetensors"@[0] == 's' && "safetensors"@[1] == 'a' && "safetensors"@[2] == 'f' && "safetensors"@[3] == 'e' && "safetensors"@[4] == 't' && "safetensors"@[5] == 'e' && "safetensors"@[6] == 'n' && "safetensors"@[7] == 's' && "safetensors"@[8] == 'o' && "safetensors"@[9] == 'r' && "safetensors"@[10] == 's');
    assert("sass"@.len() == 4 && "sass"@[0] == 's' && "sass"@[1] == 'a' && "sass"@[2] == 's' && "sass"@[3] == 's');
    assert("scala"@.len() == 5 && "scala"@[0] == 's' && "scala"@[1] == 'c' && "scala"@[2] == 'a' && "scala"@[3] == 'l' && "scala"@[4] == 'a');
    assert("scss"@.len() == 4 && "scss"@[0] == 's' && "scss"@[1] == 'c' && "scss"@[2] == 's' && "scss"@[3] == 's');
    assert("sh"@.len() == 2 && "sh"@[0] == 's' && "sh"@[1] == 'h');
    assert("sql"@.len() == 3 && "sql"@[0] == 's' && "sql"@[1] == 'q' && "sql"@[2] == 'l');
    assert("sqlite"@.len() == 6 && "sqlite"@[0] == 's' && "sqlite"@[1] == 'q' && "sqlite"@[2] == 'l' && "sqlite"@[3] == 'i' && "sqlite"@[4] == 't' && "sqlite"@[5] == 'e');
    assert("sqlite3"@.len() == 7 && "sqlite3"@[0] == 's' && "sqlite3"@[1] == 'q' && "sqlite3"@[2] == 'l' && "sqlite3"@[3] == 'i' && "sqlite3"@[4] == 't' && "sqlite3"@[5] == 'e' && "sqlite3"@[6] == '3');
    assert("svelte"@.len() == 6 && "svelte"@[0] == 's' && "svelte"@[1] == 'v' && "svelte"@[2] == 'e' && "svelte"@[3] == 'l' && "svelte"@[4] == 't' && "svelte"@[5] == 'e');
    assert("swift"@.len() == 5 && "swift"@[0] == 's' && "swift"@[1] == 'w' && "swift"@[2] == 'i' && "swift"@[3] == 'f' && "swift"@[4] == 't');
    assert("toml"@.len() == 4 && "toml"@[0] == 't' && "toml"@[1] == 'o' && "toml"@[2] == 'm' && "toml"@[3] == 'l');
    assert("ts"@.len() == 2 && "ts"@[0] == 't' && "ts"@[1] == 's');
    assert("tsx"@.len() == 3 && "tsx"@[0] == 't' && "tsx"@[1] == 's' && "tsx"@[2] == 'x');
    assert("vim"@.len() == 3 && "vim"@[0] == 'v' && "vim"@[1] == 'i' && "vim"@[2] == 'm');
    assert("vue"@.len() == 3 && "vue"@[0] == 'v' && "vue"@[1] == 'u' && "vue"@[2] == 'e');
    assert("wasm"@.len() == 4 && "wasm"@[0] == 'w' && "wasm"@[1] == 'a' && "wasm"@[2] == 's' && "wasm"@[3] == 'm');
    assert("xml"@.len() == 3 && "xml"@[0] == 'x' && "xml"@[1] == 'm' && "xml"@[2] == 'l');
    assert("yaml"@.len() == 4 && "yaml"@[0] == 'y' && "yaml"@[1] == 'a' && "yaml"@[2] == 'm' && "yaml"@[3] == 'l');
    assert("yml"@.len() == 3 && "yml"@[0] == 'y' && "yml"@[1] == 'm' && "yml"@[2] == 'l');
    assert("zig"@.len() == 3 && "zig"@[0] == 'z' && "zig"@[1] == 'i' && "zig"@[2] == 'g');
    assert("zsh"@.len() == 3 && "zsh"@[0] == 'z' && "zsh"@[1] == 's' && "zsh"@[2] == 'h');
    assert(ext_icon("hs"@) == Some("\u{e777}"@));
    assert(ext_icon("vim"@) == Some("\u{e62b}"@));
    assert(ext_icon("zig"@) == Some("\u{e6a9}"@));
    assert(ext_icon("html"@) == Some("\u{e736}"@));
    assert(ext_icon("htm"@) == Some("\u{e736}"@));
    assert(ext_icon("css"@) == Some("\u{e749}"@));
    assert(ext_icon("scss"@) == Some("\u{e749}"@));
    assert(ext_icon("sass"@) == Some("\u{e749}"@));
    assert(ext_icon("vue"@) == Some("\u{e6a0}"@));
    assert(ext_icon("svelte"@) == Some("\u{e697}"@));
    assert(ext_icon("wasm"@) == Some("\u{e6a1}"@));
    assert(ext_icon("json"@) == Some("\u{e60b}"@));
    assert(ext_icon("jsonl"@) == Some("\u{e60b}"@));
    assert(ext_icon("yaml"@) == Some("\u{e6a8}"@));
    assert(ext_icon("yml"@) == Some("\u{e6a8}"@));
    assert(ext_icon("toml"@) == Some("\u{e6b2}"@));
    assert(ext_icon("xml"@) == Some("\u{e619}"@));
}

/// File names with these extensions (in any case, classify marks
/// ignored) get these icons: part 4 of the icon table.
pub proof fn lemma_icon_table_3()
    ensures
        forall|name: Seq<char>| lower_text(last_segment(strip_classify(name), '.')) == "csv"@ ==> #[trigger] icon_for_name_spec(name) == "\u{f1c3}"@,
        forall|name: Seq<char>| lower_text(last_segment(strip_classify(name), '.')) == "xls"@ ==> #[trigger] icon_for_name_spec(name) == "\u{f1c3}"@,
        forall|name: Seq<char>| lower_text(last_segment(strip_classify(name), '.')) == "xlsx"@ ==> #[trigger] icon_for_name_spec(name) == "\u{f1c3}"@,
        forall|name: Seq<char>| lower_text(last_segment(strip_classify(name), '.')) == "ini"@ ==> #[trigger] icon_for_name_spec(name) == "\u{e615}"@,
        forall|name: Seq<char>| lower_text(last_segment(strip_classify(name), '.')) == "cfg"@ ==> #[trigger] icon_for_name_spec(name) == "\u{e615}"@,
        forall|name: Seq<char>| lower_text(last_segment(strip_classify(name), '.')) == "conf"@ ==> #[trigger] icon_for_name_spec(name) == "\u{e615}"@,
        forall|name: Seq<char>| lower_text(last_segment(strip_classify(name), '.')) == "env"@ ==> #[trigger] icon_for_name_spec(name) == "\u{e615}"@,
        forall|name: Seq<char>| lower_text(last_segment(strip_classify(name), '.')) == "md"@ ==> #[trigger] icon_for_name_spec(name) == "\u{e73e}"@,
        forall|name: Seq<char>| lower_text(last_segment(strip_classify(name), '.')) == "markdown"@ ==> #[trigger] icon_for_name_spec(name) == "\u{e73e}"@,
        forall|name: Seq<char>| lower_text(last_segment(strip_classify(name), '.')) == "mdx"@ ==> #[trigger] icon_for_name_spec(name) == "\u{e73e}"@,
        forall|name: Seq<char>| lower_text(last_segment(strip_classify(name), '.')) == "txt"@ ==> #[trigger] icon_for_name_spec(name) == "\u{f15c}"@,
        forall|name: Seq<char>| lower_text(last_segment(strip_classify(name), '.')) == "pdf"@ ==> #[trigger] icon_for_name_spec(name) == "\u{f1c1}"@,
        forall|name: Seq<char>| lower_text(last_segment(strip_classify(name), '.')) == "doc"@ ==> #[trigger] icon_for_name_spec(name) == "\u{f1c2}"@,
        forall|name: Seq<char>| lower_text(last_segment(strip_classify(name), '.')) == "docx"@ ==> #[trigger] icon_for_name_spec(name) == "\u{f1c2}"@,
        forall|name: Seq<char>| lower_text(last_segment(strip_classify(name), '.')) == "ppt"@ ==> #[trigger] icon_for_name_spec(name) == "\u{f1c4}"@,
        forall|name: Seq<char>| lower_text(last_segment(strip_classify(name), '.')) == "pptx"@ ==> #[trigger] icon_for_name_spec(name) == "\u{f1c4}"@,
        forall|name: Seq<char>| lower_text(last_segment(strip_classify(name), '.')) == "png"@ ==> #[trigger] icon_for_name_spec(name) == "\u{f1c5}"@,
        forall|name: Seq<char>| lower_text(last_segment(strip_classify(name), '.')) == "jpg"@ ==> #[trigger] icon_for_name_spec(name) == "\u{f1c5}"@,
        forall|name: Seq<char>| lower_text(last_segment(strip_classify(name), '.')) == "jpeg"@ ==> #[trigger] icon_for_name_spec(name) == "\u{f1c5}"@,
        forall|name: Seq<char>| lower_text(last_segment(strip_classify(name), '.')) == "gif"@ ==> #[trigger] icon_for_name_spec(name) == "\u{f1c5}"@,
        forall|name: Seq<char>| lower_text(last_segment(strip_classify(name), '.')) == "webp"@ ==> #[trigger] icon_for_name_spec(name) == "\u{f1c5}"@,
        forall|name: Seq<char>| lower_text(last_segment(strip_classify(name), '.')) == "bmp"@ ==> #[trigger] icon_for_name_spec(name) == "\u{f1c5}"@,
        forall|name: Seq<char>| lower_text(last_segment(strip_classify(name), '.')) == "ico"@ ==> #[trigger] icon_for_name_spec(name) == "\u{f1c5}"@,
        forall|name: Seq<char>| lower_text(last_segment(strip_classify(name), '.')) == "svg"@ ==> #[trigger] icon_for_name_spec(name) == "\u{f1c5}"@,
        forall|name: Seq<char>| lower_text(last_segment(strip_classify(name), '.')) == "heic"@ ==> #[trigger] icon_for_name_spec(name) == "\u{f1c5}"@,
        forall|name: Seq<char>| lower_text(last_segment(strip_classify(name), '.')) == "mp3"@ ==> #[trigger] icon_for_name_spec(name) == "\u{f1c7}"@,
        forall|name: Seq<char>| lower_text(last_segment(strip_classify(name), '.')) == "wav"@ ==> #[trigger] icon_for_name_spec(name) == "\u{f1c7}"@,
        forall|name: Seq<char>| lower_text(last_segment(strip_classify(name), '.')) == "flac"@ ==> #[trigger] icon_for_name_spec(name) == "\u{f1c7}"@,
        forall|name: Seq<char>| lower_text(last_segment(strip_classify(name), '.')) == "ogg"@ ==> #[trigger] icon_for_name_spec(name) == "\u{f1c7}"@,
        forall|name: Seq<char>| lower_text(last_segment(strip_classify(name), '.')) == "m4a"@ ==> #[trigger] icon_for_name_spec(name) == "\u{f1c7}"@,
        forall|name: Seq<char>| lower_text(last_segment(strip_classify(name), '.')) == "mp4"@ ==> #[trigger] icon_for_name_spec(name) == "\u{f1c8}"@,
        forall|name: Seq<char>| lower_text(last_segment(strip_classify(name), '.')) == "mkv"@ ==> #[trigger] icon_for_name_spec(name) == "\u{f1c8}"@,
        forall|name: Seq<char>| lower_text(last_segment(strip_classify(name), '.')) == "avi"@ ==> #[trigger] icon_for_name_spec(name) == "\u{f1c8}"@,
        forall|name: Seq<char>| lower_text(last_segment(strip_classify(name), '.')) == "mov"@ ==> #[trigger] icon_for_name_spec(name) == "\u{f1c8}"@,
        forall|name: Seq<char>| lower_text(last_segment(strip_classify(name), '.')) == "webm"@ ==> #[trigger] icon_for_name_spec(name) == "\u{f1c8}"@,
        forall|name: Seq<char>| lower_text(last_segment(strip_classify(name), '.')) == "zip"@ ==> #[trigger] icon_for_name_spec(name) == "\u{f1c6}"@,
        forall|name: Seq<char>| lower_text(last_segment(strip_classify(name), '.')) == "tar"@ ==> #[trigger] icon_for_name_spec(name) == "\u{f1c6}"@,
        forall|name: Seq<char>| lower_text(last_segment(strip_classify(name), '.')) == "gz"@ ==> #[trigger] icon_for_name_spec(name) == "\u{f1c6}"@,
        forall|name: Seq<char>| lower_text(last_segment(strip_classify(name), '.')) == "tgz"@ ==> #[trigger] icon_for_name_spec(name) == "\u{f1c6}"@,
        forall|name: Seq<char>| lower_text(last_segment(strip_classify(name), '.')) == "bz2"@ ==> #[trigger] icon_for_name_spec(name) == "\u{f1c6}"@,
        forall|name: Seq<char>| lower_text(last_segment(strip_classify(name), '.')) == "xz"@ ==> #[trigger] icon_for_name_spec(name) == "\u{f1c6}"@,
        forall|name: Seq<char>| lower_text(last_segment(strip_classify(name), '.')) == "rar"@ ==> #[trigger] icon_for_name_spec(name) == "\u{f1c6}"@,
        forall|name: Seq<char>| lower_text(last_segment(strip_classify(name), '.')) == "7z"@ ==> #[trigger] icon_for_name_spec(name) == "\u{f1c6}"@,
        forall|name: Seq<char>| lower_text(last_segment(strip_classify(name), '.')) == "deb"@ ==> #[trigger] icon_for_name_spec(name) == "\u{e77d}"@,
{
    reveal_strlit("7z");
    reveal_strlit("avi");
    reveal_strlit("bash");
    reveal_strlit("bmp");
    reveal_strlit("bz2");
    reveal_strlit("c");
    reveal_strlit("cc");
    reveal_strlit("cfg");
    reveal_strlit("cjs");
    reveal_strlit("conf");
    reveal_strlit("cpp");
    reveal_strlit("crate");
    reveal_strlit("cs");
    reveal_strlit("css");
    reveal_strlit("csv");
    reveal_strlit("cts");
    reveal_strlit("cu");
    reveal_strlit("cuh");
    reveal_strlit("dart");
    reveal_strlit("db");
    reveal_strlit("deb");
    reveal_strlit("doc");
    reveal_strlit("docx");
    reveal_strlit("elm");
    reveal_strlit("env");
    reveal_strlit("erb");
    reveal_strlit("erl");
    reveal_strlit("ex");
    reveal_strlit("exs");
    reveal_strlit("fish");
    reveal_strlit("flac");
    reveal_strlit("gemspec");
    reveal_strlit("gif");
    reveal_strlit("go");
    reveal_strlit("gz");
    reveal_strlit("h");
    reveal_strlit("heic");
    reveal_strlit("hpp");
    reveal_strlit("hs");
    reveal_strlit("htm");
    reveal_strlit("html");
    reveal_strlit("ico");
    reveal_strlit("ini");
    reveal_strlit("java");
    reveal_strlit("jpeg");
    reveal_strlit("jpg");
    reveal_strlit("js");
    reveal_strlit("json");
    reveal_strlit("jsonl");
    reveal_strlit("jsx");
    reveal_strlit("kt");
    reveal_strlit("lua");
    reveal_strlit("m4a");
    reveal_strlit("markdown");
    reveal_strlit("md");
    reveal_strlit("mdx");
    reveal_strlit("mjs");
    reveal_strlit("mkv");
    reveal_strlit("mov");
    reveal_strlit("mp3");
    reveal_strlit("mp4");
    reveal_strlit("mts");
    reveal_strlit("ogg");
    reveal_strlit("onnx");
    reveal_strlit("pdf");
    reveal_strlit("php");
    reveal_strlit("png");
    reveal_strlit("ppt");
    reveal_strlit("pptx");
    reveal_strlit("pt");
    reveal_strlit("pth");
    reveal_strlit("pxd");
    reveal_strlit("py");
    reveal_strlit("pyc");
    reveal_strlit("pyi");
    reveal_strlit("pyx");
    reveal_strlit("r");
    reveal_strlit("rake");
    reveal_strlit("rar");
    reveal_strlit("rb");
    reveal_strlit("rbi");
    reveal_strlit("rbs");
    reveal_strlit("rlib");
    reveal_strlit("rmeta");
    reveal_strlit("rs");
    reveal_strlit("safetensors");
    reveal_strlit("sass");
    reveal_strlit("scala");
    reveal_strlit("scss");
    reveal_strlit("sh");
    reveal_strlit("sql");
    reveal_strlit("sqlite");
    reveal_strlit("sqlite3");
    reveal_strlit("svelte");
    reveal_strlit("svg");
    reveal_strlit("swift");
    reveal_strlit("tar");
    reveal_strlit("tgz");
    reveal_strlit("toml");
    reveal_strlit("ts");
    reveal_strlit("tsx");
    reveal_strlit("txt");
    reveal_strlit("vim");
    reveal_strlit("vue");
    reveal_strlit("wasm");
    reveal_strlit("wav");
    reveal_strlit("webm");
    reveal_strlit("webp");
    reveal_strlit("xls");
    reveal_strlit("xlsx");
    reveal_strlit("xml");
    reveal_strlit("xz");
    reveal_strlit("yaml");
    reveal_strlit("yml");
    reveal_strlit("zig");
    reveal_strlit("zip");
    reveal_strlit("zsh");
    assert("7z"@.len() == 2 && "7z"@[0] == '7' && "7z"@[1] == 'z');
    assert("avi"@.len() == 3 && "avi"@[0] == 'a' && "avi"@[1] == 'v' && "avi"@[2] == 'i');
    assert("bash"@.len() == 4 && "bash"@[0] == 'b' && "bash"@[1] == 'a' && "bash"@[2] == 's' && "bash"@[3] == 'h');
    assert("bmp"@.len() == 3 && "bmp"@[0] == 'b' && "bmp"@[1] == 'm' && "bmp"@[2] == 'p');
    assert("bz2"@.len() == 3 && "bz2"@[0] == 'b' && "bz2"@[1] == 'z' && "bz2"@[2] == '2');
    assert("c"@.len() == 1 && "c"@[0] == 'c');
    assert("cc"@.len() == 2 && "cc"@[0] == 'c' && "cc"@[1] == 'c');
    assert("cfg"@.len() == 3 && "cfg"@[0] == 'c' && "cfg"@[1] == 'f' && "cfg"@[2] == 'g');
    assert("cjs"@.len() == 3 && "cjs"@[0] == 'c' && "cjs"@[1] == 'j' && "cjs"@[2] == 's');
    assert("conf"@.len() == 4 && "conf"@[0] == 'c' && "conf"@[1] == 'o' && "conf"@[2] == 'n' && "conf"@[3] == 'f');
    assert("cpp"@.len() == 3 && "cpp"@[0] == 'c' && "cpp"@[1] == 'p' && "cpp"@[2] == 'p');
    assert("crate"@.len() == 5 && "crate"@[0] == 'c' && "crate"@[1] == 'r' && "crate"@[2] == 'a' && "crate"@[3] == 't' && "crate"@[4] == 'e');
    assert("cs"@.len() == 2 && "cs"@[0] == 'c' && "cs"@[1] == 's');
    assert("css"@.len() == 3 && "css"@[0] == 'c' && "css"@[1] == 's' && "css"@[2] == 's');
    assert("csv"@.len() == 3 && "csv"@[0] == 'c' && "csv"@[1] == 's' && "csv"@[2] == 'v');
    assert("cts"@.len() == 3 && "cts"@[0] == 'c' && "cts"@[1] == 't' && "cts"@[2] == 's');
    assert("cu"@.len() == 2 && "cu"@[0] == 'c' && "cu"@[1] == 'u');
    assert("cuh"@.len() == 3 && "cuh"@[0] == 'c' && "cuh"@[1] == 'u' && "cuh"@[2] == 'h');
    assert("dart"@.len() == 4 && "dart"@[0] == 'd' && "dart"@[1] == 'a' && "dart"@[2] == 'r' && "dart"@[3] == 't');
    assert("db"@.len() == 2 && "db"@[0] == 'd' && "db"@[1] == 'b');
    assert("deb"@.len() == 3 && "deb"@[0] == 'd' && "deb"@[1] == 'e' && "deb"@[2] == 'b');
    assert("doc"@.len() == 3 && "doc"@[0] == 'd' && "doc"@[1] == 'o' && "doc"@[2] == 'c');
    assert("docx"@.len() == 4 && "docx"@[0] == 'd' && "docx"@[1] == 'o' && "docx"@[2] == 'c' && "docx"@[3] == 'x');
    assert("elm"@.len() == 3 && "elm"@[0] == 'e' && "elm"@[1] == 'l' && "elm"@[2] == 'm');
    assert("env"@.len() == 3 && "env"@[0] == 'e' && "env"@[1] == 'n' && "env"@[2] == 'v');
    assert("erb"@.len() == 3 && "erb"@[0] == 'e' && "erb"@[1] == 'r' && "erb"@[2] == 'b');
    assert("erl"@.len() == 3 && "erl"@[0] == 'e' && "erl"@[1] == 'r' && "erl"@[2] == 'l');
    assert("ex"@.len() == 2 && "ex"@[0] == 'e' && "ex"@[1] == 'x');
    assert("exs"@.len() == 3 && "exs"@[0] == 'e' && "exs"@[1] == 'x' && "exs"@[2] == 's');
    assert("fish"@.len() == 4 && "fish"@[0] == 'f' && "fish"@[1] == 'i' && "fish"@[2] == 's' && "fish"@[3] == 'h');
    assert("flac"@.len() == 4 && "flac"@[0] == 'f' && "flac"@[1] == 'l' && "flac"@[2] == 'a' && "flac"@[3] == 'c');
    assert("gemspec"@.len() == 7 && "gemspec"@[0] == 'g' && "gemspec"@[1] == 'e' && "gemspec"@[2] == 'm' && "gemspec"@[3] == 's' && "gemspec"@[4] == 'p' && "gemspec"@[5] == 'e' && "gemspec"@[6] == 'c');
    assert("gif"@.len() == 3 && "gif"@[0] == 'g' && "gif"@[1] == 'i' && "gif"@[2] == 'f');
    assert("go"@.len() == 2 && "go"@[0] == 'g' && "go"@[1] == 'o');
    assert("gz"@.len() == 2 && "gz"@[0] == 'g' && "gz"@[1] == 'z');
    assert("h"@.len() == 1 && "h"@[0] == 'h');
    assert("heic"@.len() == 4 && "heic"@[0] == 'h' && "heic"@[1] == 'e' && "heic"@[2] == 'i' && "heic"@[3] == 'c');
    assert("hpp"@.len() == 3 && "hpp"@[0] == 'h' && "hpp"@[1] == 'p' && "hpp"@[2] == 'p');
    assert("hs"@.len() == 2 && "hs"@[0] == 'h' && "hs"@[1] == 's');
    assert("htm"@.len() == 3 && "htm"@[0] == 'h' && "htm"@[1] == 't' && "htm"@[2] == 'm');
    assert("html"@.len() == 4 && "html"@[0] == 'h' && "html"@[1] == 't' && "html"@[2] == 'm' && "html"@[3] == 'l');
    assert("ico"@.len() == 3 && "ico"@[0] == 'i' && "ico"@[1] == 'c' && "ico"@[2] == 'o');
    assert("ini"@.len() == 3 && "ini"@[0] == 'i' && "ini"@[1] == 'n' && "ini"@[2] == 'i');
    assert("java"@.len() == 4 && "java"@[0] == 'j' && "java"@[1] == 'a' && "java"@[2] == 'v' && "java"@[3] == 'a');
    assert("jpeg"@.len() == 4 && "jpeg"@[0] == 'j' && "jpeg"@[1] == 'p' && "jpeg"@[2] == 'e' && "jpeg"@[3] == 'g');
    assert("jpg"@.len() == 3 && "jpg"@[0] == 'j' && "jpg"@[1] == 'p' && "jpg"@[2] == 'g');
    assert("js"@.len() == 2 && "js"@[0] == 'j' && "js"@[1] == 's');
    assert("json"@.len() == 4 && "json"@[0] == 'j' && "json"@[1] == 's' && "json"@[2] == 'o' && "json"@[3] == 'n');
    assert("jsonl"@.len() == 5 && "jsonl"@[0] == 'j' && "jsonl"@[1] == 's' && "jsonl"@[2] == 'o' && "jsonl"@[3] == 'n' && "jsonl"@[4] == 'l');
    assert("jsx"@.len() == 3 && "jsx"@[0] == 'j' && "jsx"@[1] == 's' && "jsx"@[2] == 'x');
    assert("kt"@.len() == 2 && "kt"@[0] == 'k' && "kt"@[1] == 't');
    assert("lua"@.len() == 3 && "lua"@[0] == 'l' && "lua"@[1] == 'u' && "lua"@[2] == 'a');
    assert("m4a"@.len() == 3 && "m4a"@[0] == 'm' && "m4a"@[1] == '4' && "m4a"@[2] == 'a');
    assert("markdown"@.len() == 8 && "markdown"@[0] == 'm' && "markdown"@[1] == 'a' && "markdown"@[2] == 'r' && "markdown"@[3] == 'k' && "markdown"@[4] == 'd' && "markdown"@[5] == 'o' && "markdown"@[6] == 'w' && "markdown"@[7] == 'n');
    assert("md"@.len() == 2 && "md"@[0] == 'm' && "md"@[1] == 'd');
    assert("mdx"@.len() == 3 && "mdx"@[0] == 'm' && "mdx"@[1] == 'd' && "mdx"@[2] == 'x');
    assert("mjs"@.len() == 3 && "mjs"@[0] == 'm' && "mjs"@[1] == 'j' && "mjs"@[2] == 's');
    assert("mkv"@.len() == 3 && "mkv"@[0] == 'm' && "mkv"@[1] == 'k' && "mkv"@[2] == 'v');
    assert("mov"@.len() == 3 && "mov"@[0] == 'm' && "mov"@[1] == 'o' && "mov"@[2] == 'v');
    assert("mp3"@.len() == 3 && "mp3"@[0] == 'm' && "mp3"@[1] == 'p' && "mp3"@[2] == '3');
    assert("mp4"@.len() == 3 && "mp4"@[0] == 'm' && "mp4"@[1] == 'p' && "mp4"@[2] == '4');
    assert("mts"@.len() == 3 && "mts"@[0] == 'm' && "mts"@[1] == 't' && "mts"@[2] == 's');
    assert("ogg"@.len() == 3 && "ogg"@[0] == 'o' && "ogg"@[1] == 'g' && "ogg"@[2] == 'g');
    assert("onnx"@.len() == 4 && "onnx"@[0] == 'o' && "onnx"@[1] == 'n' && "onnx"@[2] == 'n' && "onnx"@[3] == 'x');
    assert("pdf"@.len() == 3 && "pdf"@[0] == 'p' && "pdf"@[1] == 'd' && "pdf"@[2] == 'f');
    assert("php"@.len() == 3 && "php"@[0] == 'p' && "php"@[1] == 'h' && "php"@[2] == 'p');
    assert("png"@.len() == 3 && "png"@[0] == 'p' && "png"@[1] == 'n' && "png"@[2] == 'g');
    assert("ppt"@.len() == 3 && "ppt"@[0] == 'p' && "ppt"@[1] == 'p' && "ppt"@[2] == 't');
    assert("pptx"@.len() == 4 && "pptx"@[0] == 'p' && "pptx"@[1] == 'p' && "pptx"@[2] == 't' && "pptx"@[3] == 'x');
    assert("pt"@.len() == 2 && "pt"@[0] == 'p' && "pt"@[1] == 't');
    assert("pth"@.len() == 3 && "pth"@[0] == 'p' && "pth"@[1] == 't' && "pth"@[2] == 'h');
    assert("pxd"@.len() == 3 && "pxd"@[0] == 'p' && "pxd"@[1] == 'x' && "pxd"@[2] == 'd');
    assert("py"@.len() == 2 && "py"@[0] == 'p' && "py"@[1] == 'y');
    assert("pyc"@.len() == 3 && "pyc"@[0] == 'p' && "pyc"@[1] == 'y' && "pyc"@[2] == 'c');
    assert("pyi"@.len() == 3 && "pyi"@[0] == 'p' && "pyi"@[1] == 'y' && "pyi"@[2] == 'i');
    assert("pyx"@.len() == 3 && "pyx"@[0] == 'p' && "pyx"@[1] == 'y' && "pyx"@[2] == 'x');
    assert("r"@.len() == 1 && "r"@[0] == 'r');
    assert("rake"@.len() == 4 && "rake"@[0] == 'r' && "rake"@[1] == 'a' && "rake"@[2] == 'k' && "rake"@[3] == 'e');
    assert("rar"@.len() == 3 && "rar"@[0] == 'r' && "rar"@[1] == 'a' && "rar"@[2] == 'r');
    assert("rb"@.len() == 2 && "rb"@[0] == 'r' && "rb"@[1] == 'b');
    assert("rbi"@.len() == 3 && "rbi"@[0] == 'r' && "rbi"@[1] == 'b' && "rbi"@[2] == 'i');
    assert("rbs"@.len() == 3 && "rbs"@[0] == 'r' && "rbs"@[1] == 'b' && "rbs"@[2] == 's');
    assert("rlib"@.len() == 4 && "rlib"@[0] == 'r' && "rlib"@[1] == 'l' && "rlib"@[2] == 'i' && "rlib"@[3] == 'b');
    assert("rmeta"@.len() == 5 && "rmeta"@[0] == 'r' && "rmeta"@[1] == 'm' && "rmeta"@[2] == 'e' && "rmeta"@[3] == 't' && "rmeta"@[4] == 'a');
    assert("rs"@.len() == 2 && "rs"@[0] == 'r' && "rs"@[1] == 's');
    assert("safetensors"@.len() == 11 && "safetensors"@[0] == 's' && "safetensors"@[1] == 'a' && "safetensors"@[2] == 'f' && "safetensors"@[3] == 'e' && "safetensors"@[4] == 't' && "safetensors"@[5] == 'e' && "safetensors"@[6] == 'n' && "safetensors"@[7] == 's' && "safetensors"@[8] == 'o' && "safetensors"@[9] == 'r' && "safetensors"@[10] == 's');
    assert("sass"@.len() == 4 && "sass"@[0] == 's' && "sass"@[1] == 'a' && "sass"@[2] == 's' && "sass"@[3] == 's');
    assert("scala"@.len() == 5 && "scala"@[0] == 's' && "scala"@[1] == 'c' && "scala"@[2] == 'a' && "scala"@[3] == 'l' && "scala"@[4] == 'a');
    assert("scss"@.len() == 4 && "scss"@[0] == 's' && "scss"@[1] == 'c' && "scss"@[2] == 's' && "scss"@[3] == 's');
    assert("sh"@.len() == 2 && "sh"@[0] == 's' && "sh"@[1] == 'h');
    assert("sql"@.len() == 3 && "sql"@[0] == 's' && "sql"@[1] == 'q' && "sql"@[2] == 'l');
    assert("sqlite"@.len() == 6 && "sqlite"@[0] == 's' && "sqlite"@[1] == 'q' && "sqlite"@[2] == 'l' && "sqlite"@[3] == 'i' && "sqlite"@[4] == 't' && "sqlite"@[5] == 'e');
    assert("sqlite3"@.len() == 7 && "sqlite3"@[0] == 's' && "sqlite3"@[1] == 'q' && "sqlite3"@[2] == 'l' && "sqlite3"@[3] == 'i' && "sqlite3"@[4] == 't' && "sqlite3"@[5] == 'e' && "sqlite3"@[6] == '3');
    assert("svelte"@.len() == 6 && "svelte"@[0] == 's' && "svelte"@[1] == 'v' && "svelte"@[2] == 'e' && "svelte"@[3] == 'l' && "svelte"@[4] == 't' && "svelte"@[5] == 'e');
    assert("svg"@.len() == 3 && "svg"@[0] == 's' && "svg"@[1] == 'v' && "svg"@[2] == 'g');
    assert("swift"@.len() == 5 && "swift"@[0] == 's' && "swift"@[1] == 'w' && "swift"@[2] == 'i' && "swift"@[3] == 'f' && "swift"@[4] == 't');
    assert("tar"@.len() == 3 && "tar"@[0] == 't' && "tar"@[1] == 'a' && "tar"@[2] == 'r');
    assert("tgz"@.len() == 3 && "tgz"@[0] == 't' && "tgz"@[1] == 'g' && "tgz"@[2] == 'z');
    assert("toml"@.len() == 4 && "toml"@[0] == 't' && "toml"@[1] == 'o' && "toml"@[2] == 'm' && "toml"@[3] == 'l');
    assert("ts"@.len() == 2 && "ts"@[0] == 't' && "ts"@[1] == 's');
    assert("tsx"@.len() == 3 && "tsx"@[0] == 't' && "tsx"@[1] == 's' && "tsx"@[2] == 'x');
    assert("txt"@.len() == 3 && "txt"@[0] == 't' && "txt"@[1] == 'x' && "txt"@[2] == 't');
    assert("vim"@.len() == 3 && "vim"@[0] == 'v' && "vim"@[1] == 'i' && "vim"@[2] == 'm');
    assert("vue"@.len() == 3 && "vue"@[0] == 'v' && "vue"@[1] == 'u' && "vue"@[2] == 'e');
    assert("wasm"@.len() == 4 && "wasm"@[0] == 'w' && "wasm"@[1] == 'a' && "wasm"@[2] == 's' && "wasm"@[3] == 'm');
    assert("wav"@.len() == 3 && "wav"@[0] == 'w' && "wav"@[1] == 'a' && "wav"@[2] == 'v');
    assert("webm"@.len() == 4 && "webm"@[0] == 'w' && "webm"@[1] == 'e' && "webm"@[2] == 'b' && "webm"@[3] == 'm');
    assert("webp"@.len() == 4 && "webp"@[0] == 'w' && "webp"@[1] == 'e' && "webp"@[2] == 'b' && "webp"@[3] == 'p');
    assert("xls"@.len() == 3 && "xls"@[0] == 'x' && "xls"@[1] == 'l' && "xls"@[2] == 's');
    assert("xlsx"@.len() == 4 && "xlsx"@[0] == 'x' && "xlsx"@[1] == 'l' && "xlsx"@[2] == 's' && "xlsx"@[3] == 'x');
    assert("xml"@.len() == 3 && "xml"@[0] == 'x' && "xml"@[1] == 'm' && "xml"@[2] == 'l');
    assert("xz"@.len() == 2 && "xz"@[0] == 'x' && "xz"@[1] == 'z');
    assert("yaml"@.len() == 4 && "yaml"@[0] == 'y' && "yaml"@[1] == 'a' && "yaml"@[2] == 'm' && "yaml"@[3] == 'l');
    assert("yml"@.len() == 3 && "yml"@[0] == 'y' && "yml"@[1] == 'm' && "yml"@[2] == 'l');
    assert("zig"@.len() == 3 && "zig"@[0] == 'z' && "zig"@[1] == 'i' && "zig"@[2] == 'g');
    assert("zip"@.len() == 3 && "zip"@[0] == 'z' && "zip"@[1] == 'i' && "zip"@[2] == 'p');
    assert("zsh"@.len() == 3 && "zsh"@[0] == 'z' && "zsh"@[1] == 's' && "zsh"@[2] == 'h');
    assert(ext_icon("csv"@) == Some("\u{f1c3}"@));
    assert(ext_icon("xls"@) == Some("\u{f1c3}"@));
    assert(ext_icon("xlsx"@) == Some("\u{f1c3}"@));
    assert(ext_icon("ini"@) == Some("\u{e615}"@));
    assert(ext_icon("cfg"@) == Some("\u{e615}"@));
    assert(ext_icon("conf"@) == Some("\u{e615}"@));
    assert(ext_icon("env"@) == Some("\u{e615}"@));
    assert(ext_icon("md"@) == Some("\u{e73e}"@));
    assert(ext_icon("markdown"@) == Some("\u{e73e}"@));
    assert(ext_icon("mdx"@) == Some("\u{e73e}"@));
    assert(ext_icon("txt"@) == Some("\u{f15c}"@));
    assert(ext_icon("pdf"@) == Some("\u{f1c1}"@));
    assert(ext_icon("doc"@) == Some("\u{f1c2}"@));
    assert(ext_icon("docx"@) == Some("\u{f1c2}"@));
    assert(ext_icon("ppt"@) == Some("\u{f1c4}"@));
    assert(ext_icon("pptx"@) == Some("\u{f1c4}"@));
    assert(ext_icon("png"@) == Some("\u{f1c5}"@));
    assert(ext_icon("jpg"@) == Some("\u{f1c5}"@));
    assert(ext_icon("jpeg"@) == Some("\u{f1c5}"@));
    assert(ext_icon("gif"@) == Some("\u{f1c5}"@));
    assert(ext_icon("webp"@) == Some("\u{f1c5}"@));
    assert(ext_icon("bmp"@) == Some("\u{f1c5}"@));
    assert(ext_icon("ico"@) == Some("\u{f1c5}"@));
    assert(ext_icon("svg"@) == Some("\u{f1c5}"@));
    assert(ext_icon("heic"@) == Some("\u{f1c5}"@));
    assert(ext_icon("mp3"@) == Some("\u{f1c7}"@));
    assert(ext_icon("wav"@) == Some("\u{f1c7}"@));
    assert(ext_icon("flac"@) == Some("\u{f1c7}"@));
    assert(ext_icon("ogg"@) == Some("\u{f1c7}"@));
    assert(ext_icon("m4a"@) == Some("\u{f1c7}"@));
    assert(ext_icon("mp4"@) == Some("\u{f1c8}"@));
    assert(ext_icon("mkv"@) == Some("\u{f1c8}"@));
    assert(ext_icon("avi"@) == Some("\u{f1c8}"@));
    assert(ext_icon("mov"@) == Some("\u{f1c8}"@));
    assert(ext_icon("webm"@) == Some("\u{f1c8}"@));
    assert(ext_icon("zip"@) == Some("\u{f1c6}"@));
    assert(ext_icon("tar"@) == Some("\u{f1c6}"@));
    assert(ext_icon("gz"@) == Some("\u{f1c6}"@));
    assert(ext_icon("tgz"@) == Some("\u{f1c6}"@));
    assert(ext_icon("bz2"@) == Some("\u{f1c6}"@));
    assert(ext_icon("xz"@) == Some("\u{f1c6}"@));
    assert(ext_icon("rar"@) == Some("\u{f1c6}"@));
    assert(ext_icon("7z"@) == Some("\u{f1c6}"@));
    assert(ext_icon("deb"@) == Some("\u{e77d}"@));
}

/// File names with these extensions (in any case, classify marks
/// ignored) get these icons: part 5 of the icon table.
pub proof fn lemma_icon_table_4()
    ensures
        forall|name: Seq<char>| lower_text(last_segment(strip_classify(name), '.')) == "rpm"@ ==> #[trigger] icon_for_name_spec(name) == "\u{e7bb}"@,
        forall|name: Seq<char>| lower_text(last_segment(strip_classify(name), '.')) == "o"@ ==> #[trigger] icon_for_name_spec(name) == "\u{e624}"@,
        forall|name: Seq<char>| lower_text(last_segment(strip_classify(name), '.')) == "a"@ ==> #[trigger] icon_for_name_spec(name) == "\u{e624}"@,
        forall|name: Seq<char>| lower_text(last_segment(strip_classify(name), '.')) == "so"@ ==> #[trigger] icon_for_name_spec(name) == "\u{e624}"@,
        forall|name: Seq<char>| lower_text(last_segment(strip_classify(name), '.')) == "dylib"@ ==> #[trigger] icon_for_name_spec(name) == "\u{e624}"@,
        forall|name: Seq<char>| lower_text(last_segment(strip_classify(name), '.')) == "dll"@ ==> #[trigger] icon_for_name_spec(name) == "\u{e624}"@,
        forall|name: Seq<char>| lower_text(last_segment(strip_classify(name), '.')) == "gitignore"@ ==> #[trigger] icon_for_name_spec(name) == "\u{e702}"@,
        forall|name: Seq<char>| lower_text(last_segment(strip_classify(name), '.')) == "gitattributes"@ ==> #[trigger] icon_for_name_spec(name) == "\u{e702}"@,
        forall|name: Seq<char>| lower_text(last_segment(strip_classify(name), '.')) == "gitmodules"@ ==> #[trigger] icon_for_name_spec(name) == "\u{e702}"@,
        forall|name: Seq<char>| lower_text(last_segment(strip_classify(name), '.')) == "dockerfile"@ ==> #[trigger] icon_for_name_spec(name) == "\u{e7b0}"@,
        forall|name: Seq<char>| lower_text(last_segment(strip_classify(name), '.')) == "tf"@ ==> #[trigger] icon_for_name_spec(name) == "\u{e69a}"@,
        forall|name: Seq<char>| lower_text(last_segment(strip_classify(name), '.')) == "tfvars"@ ==> #[trigger] icon_for_name_spec(name) == "\u{e69a}"@,
        forall|name: Seq<char>| lower_text(last_segment(strip_classify(name), '.')) == "ttf"@ ==> #[trigger] icon_for_name_spec(name) == "\u{f031}"@,
        forall|name: Seq<char>| lower_text(last_segment(strip_classify(name), '.')) == "otf"@ ==> #[trigger] icon_for_name_spec(name) == "\u{f031}"@,
        forall|name: Seq<char>| lower_text(last_segment(strip_classify(name), '.')) == "woff"@ ==> #[trigger] icon_for_name_spec(name) == "\u{f031}"@,
        forall|name: Seq<char>| lower_text(last_segment(strip_classify(name), '.')) == "woff2"@ ==> #[trigger] icon_for_name_spec(name) == "\u{f031}"@,
        forall|name: Seq<char>| lower_text(last_segment(strip_classify(name), '.')) == "pem"@ ==> #[trigger] icon_for_name_spec(name) == "\u{f084}"@,
        forall|name: Seq<char>| lower_text(last_segment(strip_classify(name), '.')) == "crt"@ ==> #[trigger] icon_for_name_spec(name) == "\u{f084}"@,
        forall|name: Seq<char>| lower_text(last_segment(strip_classify(name), '.')) == "key"@ ==> #[trigger] icon_for_name_spec(name) == "\u{f084}"@,
        forall|name: Seq<char>| lower_text(last_segment(strip_classify(name), '.')) == "lock"@ ==> #[trigger] icon_for_name_spec(name) == "\u{f023}"@,
{
    reveal_strlit("7z");
    reveal_strlit("a");
    reveal_strlit("avi");
    reveal_strlit("bash");
    reveal_strlit("bmp");
    reveal_strlit("bz2");
    reveal_strlit("c");
    reveal_strlit("cc");
    reveal_strlit("cfg");
    reveal_strlit("cjs");
    reveal_strlit("conf");
    reveal_strlit("cpp");
    reveal_strlit("crate");
    reveal_strlit("crt");
    reveal_strlit("cs");
    reveal_strlit("css");
    reveal_strlit("csv");
    reveal_strlit("cts");
    reveal_strlit("cu");
    reveal_strlit("cuh");
    reveal_strlit("dart");
    reveal_strlit("db");
    reveal_strlit("deb");
    reveal_strlit("dll");
    reveal_strlit("doc");
    reveal_strlit("dockerfile");
    reveal_strlit("docx");
    reveal_strlit("dylib");
    reveal_strlit("elm");
    reveal_strlit("env");
    reveal_strlit("erb");
    reveal_strlit("erl");
    reveal_strlit("ex");
    reveal_strlit("exs");
    reveal_strlit("fish");
    reveal_strlit("flac");
    reveal_strlit("gemspec");
    reveal_strlit("gif");
    reveal_strlit("gitattributes");
    reveal_strlit("gitignore");
    reveal_strlit("gitmodules");
    reveal_strlit("go");
    reveal_strlit("gz");
    reveal_strlit("h");
    reveal_strlit("heic");
    reveal_strlit("hpp");
    reveal_strlit("hs");
    reveal_strlit("htm");
    reveal_strlit("html");
    reveal_strlit("ico");
    reveal_strlit("ini");
    reveal_strlit("java");
    reveal_strlit("jpeg");
    reveal_strlit("jpg");
    reveal_strlit("js");
    reveal_strlit("json");
    reveal_strlit("jsonl");
    reveal_strlit("jsx");
    reveal_strlit("key");
    reveal_strlit("kt");
    reveal_strlit("lock");
    reveal_strlit("lua");
    reveal_strlit("m4a");
    reveal_strlit("markdown");
    reveal_strlit("md");
    reveal_strlit("mdx");
    reveal_strlit("mjs");
    reveal_strlit("mkv");
    reveal_strlit("mov");
    reveal_strlit("mp3");
    reveal_strlit("mp4");
    reveal_strlit("mts");
    reveal_strlit("o");
    reveal_strlit("ogg");
    reveal_strlit("onnx");
    reveal_strlit("otf");
    reveal_strlit("pdf");
    reveal_strlit("pem");
    reveal_strlit("php");
    reveal_strlit("png");
    reveal_strlit("ppt");
    reveal_strlit("pptx");
    reveal_strlit("pt");
    reveal_strlit("pth");
    reveal_strlit("pxd");
    reveal_strlit("py");
    reveal_strlit("pyc");
    reveal_strlit("pyi");
    reveal_strlit("pyx");
    reveal_strlit("r");
    reveal_strlit("rake");
    reveal_strlit("rar");
    reveal_strlit("rb");
    reveal_strlit("rbi");
    reveal_strlit("rbs");
    reveal_strlit("rlib");
    reveal_strlit("rmeta");
    reveal_strlit("rpm");
    reveal_strlit("rs");
    reveal_strlit("safetensors");
    reveal_strlit("sass");
    reveal_strlit("scala");
    reveal_strlit("scss");
    reveal_strlit("sh");
    reveal_strlit("so");
    reveal_strlit("sql");
    reveal_strlit("sqlite");
    reveal_strlit("sqlite3");
    reveal_strlit("svelte");
    reveal_strlit("svg");
    reveal_strlit("swift");
    reveal_strlit("tar");
    reveal_strlit("tf");
    reveal_strlit("tfvars");
    reveal_strlit("tgz");
    reveal_strlit("toml");
    reveal_strlit("ts");
    reveal_strlit("tsx");
    reveal_strlit("ttf");
    reveal_strlit("txt");
    reveal_strlit("vim");
    reveal_strlit("vue");
    reveal_strlit("wasm");
    reveal_strlit("wav");
    reveal_strlit("webm");
    reveal_strlit("webp");
    reveal_strlit("woff");
    reveal_strlit("woff2");
    reveal_strlit("xls");
    reveal_strlit("xlsx");
    reveal_strlit("xml");
    reveal_strlit("xz");
    reveal_strlit("yaml");
    reveal_strlit("yml");
    reveal_strlit("zig");
    reveal_strlit("zip");
    reveal_strlit("zsh");
    assert("7z"@.len() == 2 && "7z"@[0] == '7' && "7z"@[1] == 'z');
    assert("a"@.len() == 1 && "a"@[0] == 'a');
    assert("avi"@.len() == 3 && "avi"@[0] == 'a' && "avi"@[1] == 'v' && "avi"@[2] == 'i');
    assert("bash"@.len() == 4 && "bash"@[0] == 'b' && "bash"@[1] == 'a' && "bash"@[2] == 's' && "bash"@[3] == 'h');
    assert("bmp"@.len() == 3 && "bmp"@[0] == 'b' && "bmp"@[1] == 'm' && "bmp"@[2] == 'p');
    assert("bz2"@.len() == 3 && "bz2"@[0] == 'b' && "bz2"@[1] == 'z' && "bz2"@[2] == '2');
    assert("c"@.len() == 1 && "c"@[0] == 'c');
    assert("cc"@.len() == 2 && "cc"@[0] == 'c' && "cc"@[1] == 'c');
    assert("cfg"@.len() == 3 && "cfg"@[0] == 'c' && "cfg"@[1] == 'f' && "cfg"@[2] == 'g');
    assert("cjs"@.len() == 3 && "cjs"@[0] == 'c' && "cjs"@[1] == 'j' && "cjs"@[2] == 's');
    assert("conf"@.len() == 4 && "conf"@[0] == 'c' && "conf"@[1] == 'o' && "conf"@[2] == 'n' && "conf"@[3] == 'f');
    assert("cpp"@.len() == 3 && "cpp"@[0] == 'c' && "cpp"@[1] == 'p' && "cpp"@[2] == 'p');
    assert("crate"@.len() == 5 && "crate"@[0] == 'c' && "crate"@[1] == 'r' && "crate"@[2] == 'a' && "crate"@[3] == 't' && "crate"@[4] == 'e');
    assert("crt"@.len() == 3 && "crt"@[0] == 'c' && "crt"@[1] == 'r' && "crt"@[2] == 't');
    assert("cs"@.len() == 2 && "cs"@[0] == 'c' && "cs"@[1] == 's');
    assert("css"@.len() == 3 && "css"@[0] == 'c' && "css"@[1] == 's' && "css"@[2] == 's');
    assert("csv"@.len() == 3 && "csv"@[0] == 'c' && "csv"@[1] == 's' && "csv"@[2] == 'v');
    assert("cts"@.len() == 3 && "cts"@[0] == 'c' && "cts"@[1] == 't' && "cts"@[2] == 's');
    assert("cu"@.len() == 2 && "cu"@[0] == 'c' && "cu"@[1] == 'u');
    assert("cuh"@.len() == 3 && "cuh"@[0] == 'c' && "cuh"@[1] == 'u' && "cuh"@[2] == 'h');
    assert("dart"@.len() == 4 && "dart"@[0] == 'd' && "dart"@[1] == 'a' && "dart"@[2] == 'r' && "dart"@[3] == 't');
    assert("db"@.len() == 2 && "db"@[0] == 'd' && "db"@[1] == 'b');
    assert("deb"@.len() == 3 && "deb"@[0] == 'd' && "deb"@[1] == 'e' && "deb"@[2] == 'b');
    assert("dll"@.len() == 3 && "dll"@[0] == 'd' && "dll"@[1] == 'l' && "dll"@[2] == 'l');
    assert("doc"@.len() == 3 && "doc"@[0] == 'd' && "doc"@[1] == 'o' && "doc"@[2] == 'c');
    assert("dockerfile"@.len() == 10 && "dockerfile"@[0] == 'd' && "dockerfile"@[1] == 'o' && "dockerfile"@[2] == 'c' && "dockerfile"@[3] == 'k' && "dockerfile"@[4] == 'e' && "dockerfile"@[5] == 'r' && "dockerfile"@[6] == 'f' && "dockerfile"@[7] == 'i' && "dockerfile"@[8] == 'l' && "dockerfile"@[9] == 'e');
    assert("docx"@.len() == 4 && "docx"@[0] == 'd' && "docx"@[1] == 'o' && "docx"@[2] == 'c' && "docx"@[3] == 'x');
    assert("dylib"@.len() == 5 && "dylib"@[0] == 'd' && "dylib"@[1] == 'y' && "dylib"@[2] == 'l' && "dylib"@[3] == 'i' && "dylib"@[4] == 'b');
    assert("elm"@.len() == 3 && "elm"@[0] == 'e' && "elm"@[1] == 'l' && "elm"@[2] == 'm');
    assert("env"@.len() == 3 && "env"@[0] == 'e' && "env"@[1] == 'n' && "env"@[2] == 'v');
    assert("erb"@.len() == 3 && "erb"@[0] == 'e' && "erb"@[1] == 'r' && "erb"@[2] == 'b');
    assert("erl"@.len() == 3 && "erl"@[0] == 'e' && "erl"@[1] == 'r' && "erl"@[2] == 'l');
    assert("ex"@.len() == 2 && "ex"@[0] == 'e' && "ex"@[1] == 'x');
    assert("exs"@.len() == 3 && "exs"@[0] == 'e' && "exs"@[1] == 'x' && "exs"@[2] == 's');
    assert("fish"@.len() == 4 && "fish"@[0] == 'f' && "fish"@[1] == 'i' && "fish"@[2] == 's' && "fish"@[3] == 'h');
    assert("flac"@.len() == 4 && "flac"@[0] == 'f' && "flac"@[1] == 'l' && "flac"@[2] == 'a' && "flac"@[3] == 'c');
    assert("gemspec"@.len() == 7 && "gemspec"@[0] == 'g' && "gemspec"@[1] == 'e' && "gemspec"@[2] == 'm' && "gemspec"@[3] == 's' && "gemspec"@[4] == 'p' && "gemspec"@[5] == 'e' && "gemspec"@[6] == 'c');
    assert("gif"@.len() == 3 && "gif"@[0] == 'g' && "gif"@[1] == 'i' && "gif"@[2] == 'f');
    assert("gitattributes"@.len() == 13 && "gitattributes"@[0] == 'g' && "gitattributes"@[1] == 'i' && "gitattributes"@[2] == 't' && "gitattributes"@[3] == 'a' && "gitattributes"@[4] == 't' && "gitattributes"@[5] == 't' && "gitattributes"@[6] == 'r' && "gitattributes"@[7] == 'i' && "gitattributes"@[8] == 'b' && "gitattributes"@[9] == 'u' && "gitattributes"@[10] == 't' && "gitattributes"@[11] == 'e' && "gitattributes"@[12] == 's');
    assert("gitignore"@.len() == 9 && "gitignore"@[0] == 'g' && "gitignore"@[1] == 'i' && "gitignore"@[2] == 't' && "gitignore"@[3] == 'i' && "gitignore"@[4] == 'g' && "gitignore"@[5] == 'n' && "gitignore"@[6] == 'o' && "gitignore"@[7] == 'r' && "gitignore"@[8] == 'e');
    assert("gitmodules"@.len() == 10 && "gitmodules"@[0] == 'g' && "gitmodules"@[1] == 'i' && "gitmodules"@[2] == 't' && "gitmodules"@[3] == 'm' && "gitmodules"@[4] == 'o' && "gitmodules"@[5] == 'd' && "gitmodules"@[6] == 'u' && "gitmodules"@[7] == 'l' && "gitmodules"@[8] == 'e' && "gitmodules"@[9] == 's');
    assert("go"@.len() == 2 && "go"@[0] == 'g' && "go"@[1] == 'o');
    assert("gz"@.len() == 2 && "gz"@[0] == 'g' && "gz"@[1] == 'z');
    assert("h"@.len() == 1 && "h"@[0] == 'h');
    assert("heic"@.len() == 4 && "heic"@[0] == 'h' && "heic"@[1] == 'e' && "heic"@[2] == 'i' && "heic"@[3] == 'c');
    assert("hpp"@.len() == 3 && "hpp"@[0] == 'h' && "hpp"@[1] == 'p' && "hpp"@[2] == 'p');
    assert("hs"@.len() == 2 && "hs"@[0] == 'h' && "hs"@[1] == 's');
    assert("htm"@.len() == 3 && "htm"@[0] == 'h' && "htm"@[1] == 't' && "htm"@[2] == 'm');
    assert("html"@.len() == 4 && "html"@[0] == 'h' && "html"@[1] == 't' && "html"@[2] == 'm' && "html"@[3] == 'l');
    assert("ico"@.len() == 3 && "ico"@[0] == 'i' && "ico"@[1] == 'c' && "ico"@[2] == 'o');
    assert("ini"@.len() == 3 && "ini"@[0] == 'i' && "ini"@[1] == 'n' && "ini"@[2] == 'i');
    assert("java"@.len() == 4 && "java"@[0] == 'j' && "java"@[1] == 'a' && "java"@[2] == 'v' && "java"@[3] == 'a');
    assert("jpeg"@.len() == 4 && "jpeg"@[0] == 'j' && "jpeg"@[1] == 'p' && "jpeg"@[2] == 'e' && "jpeg"@[3] == 'g');
    assert("jpg"@.len() == 3 && "jpg"@[0] == 'j' && "jpg"@[1] == 'p' && "jpg"@[2] == 'g');
    assert("js"@.len() == 2 && "js"@[0] == 'j' && "js"@[1] == 's');
    assert("json"@.len() == 4 && "json"@[0] == 'j' && "json"@[1] == 's' && "json"@[2] == 'o' && "json"@[3] == 'n');
    assert("jsonl"@.len() == 5 && "jsonl"@[0] == 'j' && "jsonl"@[1] == 's' && "jsonl"@[2] == 'o' && "jsonl"@[3] == 'n' && "jsonl"@[4] == 'l');
    assert("jsx"@.len() == 3 && "jsx"@[0] == 'j' && "jsx"@[1] == 's' && "jsx"@[2] == 'x');
    assert("key"@.len() == 3 && "key"@[0] == 'k' && "key"@[1] == 'e' && "key"@[2] == 'y');
    assert("kt"@.len() == 2 && "kt"@[0] == 'k' && "kt"@[1] == 't');
    assert("lock"@.len() == 4 && "lock"@[0] == 'l' && "lock"@[1] == 'o' && "lock"@[2] == 'c' && "lock"@[3] == 'k');
    assert("lua"@.len() == 3 && "lua"@[0] == 'l' && "lua"@[1] == 'u' && "lua"@[2] == 'a');
    assert("m4a"@.len() == 3 && "m4a"@[0] == 'm' && "m4a"@[1] == '4' && "m4a"@[2] == 'a');
    assert("markdown"@.len() == 8 && "markdown"@[0] == 'm' && "markdown"@[1] == 'a' && "markdown"@[2] == 'r' && "markdown"@[3] == 'k' && "markdown"@[4] == 'd' && "markdown"@[5] == 'o' && "markdown"@[6] == 'w' && "markdown"@[7] == 'n');
    assert("md"@.len() == 2 && "md"@[0] == 'm' && "md"@[1] == 'd');
    assert("mdx"@.len() == 3 && "mdx"@[0] == 'm' && "mdx"@[1] == 'd' && "mdx"@[2] == 'x');
    assert("mjs"@.len() == 3 && "mjs"@[0] == 'm' && "mjs"@[1] == 'j' && "mjs"@[2] == 's');
    assert("mkv"@.len() == 3 && "mkv"@[0] == 'm' && "mkv"@[1] == 'k' && "mkv"@[2] == 'v');
    assert("mov"@.len() == 3 && "mov"@[0] == 'm' && "mov"@[1] == 'o' && "mov"@[2] == 'v');
    assert("mp3"@.len() == 3 && "mp3"@[0] == 'm' && "mp3"@[1] == 'p' && "mp3"@[2] == '3');
    assert("mp4"@.len() == 3 && "mp4"@[0] == 'm' && "mp4"@[1] == 'p' && "mp4"@[2] == '4');
    assert("mts"@.len() == 3 && "mts"@[0] == 'm' && "mts"@[1] == 't' && "mts"@[2] == 's');
    assert("o"@.len() == 1 && "o"@[0] == 'o');
    assert("ogg"@.len() == 3 && "ogg"@[0] == 'o' && "ogg"@[1] == 'g' && "ogg"@[2] == 'g');
    assert("onnx"@.len() == 4 && "onnx"@[0] == 'o' && "onnx"@[1] == 'n' && "onnx"@[2] == 'n' && "onnx"@[3] == 'x');
    assert("otf"@.len() == 3 && "otf"@[0] == 'o' && "otf"@[1] == 't' && "otf"@[2] == 'f');
    assert("pdf"@.len() == 3 && "pdf"@[0] == 'p' && "pdf"@[1] == 'd' && "pdf"@[2] == 'f');
    assert("pem"@.len() == 3 && "pem"@[0] == 'p' && "pem"@[1] == 'e' && "pem"@[2] == 'm');
    assert("php"@.len() == 3 && "php"@[0] == 'p' && "php"@[1] == 'h' && "php"@[2] == 'p');
    assert("png"@.len() == 3 && "png"@[0] == 'p' && "png"@[1] == 'n' && "png"@[2] == 'g');
    assert("ppt"@.len() == 3 && "ppt"@[0] == 'p' && "ppt"@[1] == 'p' && "ppt"@[2] == 't');
    assert("pptx"@.len() == 4 && "pptx"@[0] == 'p' && "pptx"@[1] == 'p' && "pptx"@[2] == 't' && "pptx"@[3] == 'x');
    assert("pt"@.len() == 2 && "pt"@[0] == 'p' && "pt"@[1] == 't');
    assert("pth"@.len() == 3 && "pth"@[0] == 'p' && "pth"@[1] == 't' && "pth"@[2] == 'h');
    assert("pxd"@.len() == 3 && "pxd"@[0] == 'p' && "pxd"@[1] == 'x' && "pxd"@[2] == 'd');
    assert("py"@.len() == 2 && "py"@[0] == 'p' && "py"@[1] == 'y');
    assert("pyc"@.len() == 3 && "pyc"@[0] == 'p' && "pyc"@[1] == 'y' && "pyc"@[2] == 'c');
    assert("pyi"@.len() == 3 && "pyi"@[0] == 'p' && "pyi"@[1] == 'y' && "pyi"@[2] == 'i');
    assert("pyx"@.len() == 3 && "pyx"@[0] == 'p' && "pyx"@[1] == 'y' && "pyx"@[2] == 'x');
    assert("r"@.len() == 1 && "r"@[0] == 'r');
    assert("rake"@.len() == 4 && "rake"@[0] == 'r' && "rake"@[1] == 'a' && "rake"@[2] == 'k' && "rake"@[3] == 'e');
    assert("rar"@.len() == 3 && "rar"@[0] == 'r' && "rar"@[1] == 'a' && "rar"@[2] == 'r');
    assert("rb"@.len() == 2 && "rb"@[0] == 'r' && "rb"@[1] == 'b');
    assert("rbi"@.len() == 3 && "rbi"@[0] == 'r' && "rbi"@[1] == 'b' && "rbi"@[2] == 'i');
    assert("rbs"@.len() == 3 && "rbs"@[0] == 'r' && "rbs"@[1] == 'b' && "rbs"@[2] == 's');
    assert("rlib"@.len() == 4 && "rlib"@[0] == 'r' && "rlib"@[1] == 'l' && "rlib"@[2] == 'i' && "rlib"@[3] == 'b');
    assert("rmeta"@.len() == 5 && "rmeta"@[0] == 'r' && "rmeta"@[1] == 'm' && "rmeta"@[2] == 'e' && "rmeta"@[3] == 't' && "rmeta"@[4] == 'a');
    assert("rpm"@.len() == 3 && "rpm"@[0] == 'r' && "rpm"@[1] == 'p' && "rpm"@[2] == 'm');
    assert("rs"@.len() == 2 && "rs"@[0] == 'r' && "rs"@[1] == 's');
    assert("safetensors"@.len() == 11 && "safetensors"@[0] == 's' && "safetensors"@[1] == 'a' && "safetensors"@[2] == 'f' && "safetensors"@[3] == 'e' && "safetensors"@[4] == 't' && "safetensors"@[5] == 'e' && "safetensors"@[6] == 'n' && "safetensors"@[7] == 's' && "safetensors"@[8] == 'o' && "safetensors"@[9] == 'r' && "safetensors"@[10] == 's');
    assert("sass"@.len() == 4 && "sass"@[0] == 's' && "sass"@[1] == 'a' && "sass"@[2] == 's' && "sass"@[3] == 's');
    assert("scala"@.len() == 5 && "scala"@[0] == 's' && "scala"@[1] == 'c' && "scala"@[2] == 'a' && "scala"@[3] == 'l' && "scala"@[4] == 'a');
    assert("scss"@.len() == 4 && "scss"@[0] == 's' && "scss"@[1] == 'c' && "scss"@[2] == 's' && "scss"@[3] == 's');
    assert("sh"@.len() == 2 && "sh"@[0] == 's' && "sh"@[1] == 'h');
    assert("so"@.len() == 2 && "so"@[0] == 's' && "so"@[1] == 'o');
    assert("sql"@.len() == 3 && "sql"@[0] == 's' && "sql"@[1] == 'q' && "sql"@[2] == 'l');
    assert("sqlite"@.len() == 6 && "sqlite"@[0] == 's' && "sqlite"@[1] == 'q' && "sqlite"@[2] == 'l' && "sqlite"@[3] == 'i' && "sqlite"@[4] == 't' && "sqlite"@[5] == 'e');
    assert("sqlite3"@.len() == 7 && "sqlite3"@[0] == 's' && "sqlite3"@[1] == 'q' && "sqlite3"@[2] == 'l' && "sqlite3"@[3] == 'i' && "sqlite3"@[4] == 't' && "sqlite3"@[5] == 'e' && "sqlite3"@[6] == '3');
    assert("svelte"@.len() == 6 && "svelte"@[0] == 's' && "svelte"@[1] == 'v' && "svelte"@[2] == 'e' && "svelte"@[3] == 'l' && "svelte"@[4] == 't' && "svelte"@[5] == 'e');
    assert("svg"@.len() == 3 && "svg"@[0] == 's' && "svg"@[1] == 'v' && "svg"@[2] == 'g');
    assert("swift"@.len() == 5 && "swift"@[0] == 's' && "swift"@[1] == 'w' && "swift"@[2] == 'i' && "swift"@[3] == 'f' && "swift"@[4] == 't');
    assert("tar"@.len() == 3 && "tar"@[0] == 't' && "tar"@[1] == 'a' && "tar"@[2] == 'r');
    assert("tf"@.len() == 2 && "tf"@[0] == 't' && "tf"@[1] == 'f');
    assert("tfvars"@.len() == 6 && "tfvars"@[0] == 't' && "tfvars"@[1] == 'f' && "tfvars"@[2] == 'v' && "tfvars"@[3] == 'a' && "tfvars"@[4] == 'r' && "tfvars"@[5] == 's');
    assert("tgz"@.len() == 3 && "tgz"@[0] == 't' && "tgz"@[1] == 'g' && "tgz"@[2] == 'z');
    assert("toml"@.len() == 4 && "toml"@[0] == 't' && "toml"@[1] == 'o' && "toml"@[2] == 'm' && "toml"@[3] == 'l');
    assert("ts"@.len() == 2 && "ts"@[0] == 't' && "ts"@[1] == 's');
    assert("tsx"@.len() == 3 && "tsx"@[0] == 't' && "tsx"@[1] == 's' && "tsx"@[2] == 'x');
    assert("ttf"@.len() == 3 && "ttf"@[0] == 't' && "ttf"@[1] == 't' && "ttf"@[2] == 'f');
    assert("txt"@.len() == 3 && "txt"@[0] == 't' && "txt"@[1] == 'x' && "txt"@[2] == 't');
    assert("vim"@.len() == 3 && "vim"@[0] == 'v' && "vim"@[1] == 'i' && "vim"@[2] == 'm');
    assert("vue"@.len() == 3 && "vue"@[0] == 'v' && "vue"@[1] == 'u' && "vue"@[2] == 'e');
    assert("wasm"@.len() == 4 && "wasm"@[0] == 'w' && "wasm"@[1] == 'a' && "wasm"@[2] == 's' && "wasm"@[3] == 'm');
    assert("wav"@.len() == 3 && "wav"@[0] == 'w' && "wav"@[1] == 'a' && "wav"@[2] == 'v');
    assert("webm"@.len() == 4 && "webm"@[0] == 'w' && "webm"@[1] == 'e' && "webm"@[2] == 'b' && "webm"@[3] == 'm');
    assert("webp"@.len() == 4 && "webp"@[0] == 'w' && "webp"@[1] == 'e' && "webp"@[2] == 'b' && "webp"@[3] == 'p');
    assert("woff"@.len() == 4 && "woff"@[0] == 'w' && "woff"@[1] == 'o' && "woff"@[2] == 'f' && "woff"@[3] == 'f');
    assert("woff2"@.len() == 5 && "woff2"@[0] == 'w' && "woff2"@[1] == 'o' && "woff2"@[2] == 'f' && "woff2"@[3] == 'f' && "woff2"@[4] == '2');
    assert("xls"@.len() == 3 && "xls"@[0] == 'x' && "xls"@[1] == 'l' && "xls"@[2] == 's');
    assert("xlsx"@.len() == 4 && "xlsx"@[0] == 'x' && "xlsx"@[1] == 'l' && "xlsx"@[2] == 's' && "xlsx"@[3] == 'x');
    assert("xml"@.len() == 3 && "xml"@[0] == 'x' && "xml"@[1] == 'm' && "xml"@[2] == 'l');
    assert("xz"@.len() == 2 && "xz"@[0] == 'x' && "xz"@[1] == 'z');
    assert("yaml"@.len() == 4 && "yaml"@[0] == 'y' && "yaml"@[1] == 'a' && "yaml"@[2] == 'm' && "yaml"@[3] == 'l');
    assert("yml"@.len() == 3 && "yml"@[0] == 'y' && "yml"@[1] == 'm' && "yml"@[2] == 'l');
    assert("zig"@.len() == 3 && "zig"@[0] == 'z' && "zig"@[1] == 'i' && "zig"@[2] == 'g');
    assert("zip"@.len() == 3 && "zip"@[0] == 'z' && "zip"@[1] == 'i' && "zip"@[2] == 'p');
    assert("zsh"@.len() == 3 && "zsh"@[0] == 'z' && "zsh"@[1] == 's' && "zsh"@[2] == 'h');
    assert(ext_icon("rpm"@) == Some("\u{e7bb}"@));
    assert(ext_icon("o"@) == Some("\u{e624}"@));
    assert(ext_icon("a"@) == Some("\u{e624}"@));
    assert(ext_icon("so"@) == Some("\u{e624}"@));
    assert(ext_icon("dylib"@) == Some("\u{e624}"@));
    assert(ext_icon("dll"@) == Some("\u{e624}"@));
    assert(ext_icon("gitignore"@) == Some("\u{e702}"@));
    assert(ext_icon("gitattributes"@) == Some("\u{e702}"@));
    assert(ext_icon("gitmodules"@) == Some("\u{e702}"@));
    assert(ext_icon("dockerfile"@) == Some("\u{e7b0}"@));
    assert(ext_icon("tf"@) == Some("\u{e69a}"@));
    assert(ext_icon("tfvars"@) == Some("\u{e69a}"@));
    assert(ext_icon("ttf"@) == Some("\u{f031}"@));
    assert(ext_icon("otf"@) == Some("\u{f031}"@));
    assert(ext_icon("woff"@) == Some("\u{f031}"@));
    assert(ext_icon("woff2"@) == Some("\u{f031}"@));
    assert(ext_icon("pem"@) == Some("\u{f084}"@));
    assert(ext_icon("crt"@) == Some("\u{f084}"@));
    assert(ext_icon("key"@) == Some("\u{f084}"@));
    assert(ext_icon("lock"@) == Some("\u{f023}"@));
}

/// Regular files with these extensions (in any case) get these
/// colours: part 1 of the colour table.
pub proof fn lemma_color_table_0()
    ensures
        forall|name: Seq<char>| lower_text(last_segment(name, '.')) == "rs"@ ==> #[trigger] color_for_type_spec(name, FileType::Regular) == LsColor::Rgb(0xCE, 0x42, 0x2B),
        forall|name: Seq<char>| lower_text(last_segment(name, '.')) == "rlib"@ ==> #[trigger] color_for_type_spec(name, FileType::Regular) == LsColor::Rgb(0xCE, 0x42, 0x2B),
        forall|name: Seq<char>| lower_text(last_segment(name, '.')) == "rmeta"@ ==> #[trigger] color_for_type_spec(name, FileType::Regular) == LsColor::Rgb(0xCE, 0x42, 0x2B),
        forall|name: Seq<char>| lower_text(last_segment(name, '.')) == "crate"@ ==> #[trigger] color_for_type_spec(name, FileType::Regular) == LsColor::Rgb(0xCE, 0x42, 0x2B),
        forall|name: Seq<char>| lower_text(last_segment(name, '.')) == "py"@ ==> #[trigger] color_for_type_spec(name, FileType::Regular) == LsColor::Rgb(0x37, 0x76, 0xAB),
        forall|name: Seq<char>| lower_text(last_segment(name, '.')) == "pyc"@ ==> #[trigger] color_for_type_spec(name, FileType::Regular) == LsColor::Rgb(0x37, 0x76, 0xAB),
        forall|name: Seq<char>| lower_text(last_segment(name, '.')) == "pyi"@ ==> #[trigger] color_for_type_spec(name, FileType::Regular) == LsColor::Rgb(0x37, 0x76, 0xAB),
        forall|name: Seq<char>| lower_text(last_segment(name, '.')) == "pyx"@ ==> #[trigger] color_for_type_spec(name, FileType::Regular) == LsColor::Rgb(0x37, 0x76, 0xAB),
        forall|name: Seq<char>| lower_text(last_segment(name, '.')) == "pxd"@ ==> #[trigger] color_for_type_spec(name, FileType::Regular) == LsColor::Rgb(0x37, 0x76, 0xAB),
        forall|name: Seq<char>| lower_text(last_segment(name, '.')) == "rb"@ ==> #[trigger] color_for_type_spec(name, FileType::Regular) == LsColor::Rgb(0xCC, 0x34, 0x2D),
        forall|name: Seq<char>| lower_text(last_segment(name, '.')) == "erb"@ ==> #[trigger] color_for_type_spec(name, FileType::Regular) == LsColor::Rgb(0xCC, 0x34, 0x2D),
        forall|name: Seq<char>| lower_text(last_segment(name, '.')) == "rbs"@ ==> #[trigger] color_for_type_spec(name, FileType::Regular) == LsColor::Rgb(0xCC, 0x34, 0x2D),
        forall|name: Seq<char>| lower_text(last_segment(name, '.')) == "rbi"@ ==> #[trigger] color_for_type_spec(name, FileType::Regular) == LsColor::Rgb(0xCC, 0x34, 0x2D),
        forall|name: Seq<char>| lower_text(last_segment(name, '.')) == "gemspec"@ ==> #[trigger] color_for_type_spec(name, FileType::Regular) == LsColor::Rgb(0xCC, 0x34, 0x2D),
        forall|name: Seq<char>| lower_text(last_segment(name, '.')) == "rake"@ ==> #[trigger] color_for_type_spec(name, FileType::Regular) == LsColor::Rgb(0xCC, 0x34, 0x2D),
        forall|name: Seq<char>| lower_text(last_segment(name, '.')) == "js"@ ==> #[trigger] color_for_type_spec(name, FileType::Regular) == LsColor::Rgb(0xF7, 0xDF, 0x1E),
        forall|name: Seq<char>| lower_text(last_segment(name, '.')) == "mjs"@ ==> #[trigger] color_for_type_spec(name, FileType::Regular) == LsColor::Rgb(0xF7, 0xDF, 0x1E),
        forall|name: Seq<char>| lower_text(last_segment(name, '.')) == "cjs"@ ==> #[trigger] color_for_type_spec(name, FileType::Regular) == LsColor::Rgb(0xF7, 0xDF, 0x1E),
        forall|name: Seq<char>| lower_text(last_segment(name, '.')) == "jsx"@ ==> #[trigger] color_for_type_spec(name, FileType::Regular) == LsColor::Rgb(0xF7, 0xDF, 0x1E),
        forall|name: Seq<char>| lower_text(last_segment(name, '.')) == "ts"@ ==> #[trigger] color_for_type_spec(name, FileType::Regular) == LsColor::Rgb(0x31, 0x78, 0xC6),
        forall|name: Seq<char>| lower_text(last_segment(name, '.')) == "mts"@ ==> #[trigger] color_for_type_spec(name, FileType::Regular) == LsColor::Rgb(0x31, 0x78, 0xC6),
        forall|name: Seq<char>| lower_text(last_segment(name, '.')) == "cts"@ ==> #[trigger] color_for_type_spec(name, FileType::Regular) == LsColor::Rgb(0x31, 0x78, 0xC6),
        forall|name: Seq<char>| lower_text(last_segment(name, '.')) == "tsx"@ ==> #[trigger] color_for_type_spec(name, FileType::Regular) == LsColor::Rgb(0x31, 0x78, 0xC6),
        forall|name: Seq<char>| lower_text(last_segment(name, '.')) == "go"@ ==> #[trigger] color_for_type_spec(name, FileType::Regular) == LsColor::Rgb(0x00, 0xAD, 0xD8),
        forall|name: Seq<char>| lower_text(last_segment(name, '.')) == "java"@ ==> #[trigger] color_for_type_spec(name, FileType::Regular) == LsColor::Rgb(0xED, 0x8B, 0x00),
        forall|name: Seq<char>| lower_text(last_segment(name, '.')) == "jar"@ ==> #[trigger] color_for_type_spec(name, FileType::Regular) == LsColor::Rgb(0xED, 0x8B, 0x00),
        forall|name: Seq<char>| lower_text(last_segment(name, '.')) == "c"@ ==> #[trigger] color_for_type_spec(name, FileType::Regular) == LsColor::Rgb(0xA8, 0xB9, 0xCC),
        forall|name: Seq<char>| lower_text(last_segment(name, '.')) == "h"@ ==> #[trigger] color_for_type_spec(name, FileType::Regular) == LsColor::Rgb(0xA8, 0xB9, 0xCC),
        forall|name: Seq<char>| lower_text(last_segment(name, '.')) == "cpp"@ ==> #[trigger] color_for_type_spec(name, FileType::Regular) == LsColor::Rgb(0x00, 0x59, 0x9C),
        forall|name: Seq<char>| lower_text(last_segment(name, '.')) == "cc"@ ==> #[trigger] color_for_type_spec(name, FileType::Regular) == LsColor::Rgb(0x00, 0x59, 0x9C),
        forall|name: Seq<char>| lower_text(last_segment(name, '.')) == "cxx"@ ==> #[trigger] color_for_type_spec(name, FileType::Regular) == LsColor::Rgb(0x00, 0x59, 0x9C),
        forall|name: Seq<char>| lower_text(last_segment(name, '.')) == "hpp"@ ==> #[trigger] color_for_type_spec(name, FileType::Regular) == LsColor::Rgb(0x00, 0x59, 0x9C),
        forall|name: Seq<char>| lower_text(last_segment(name, '.')) == "sh"@ ==> #[trigger] color_for_type_spec(name, FileType::Regular) == LsColor::Rgb(0x4E, 0xAA, 0x25),
        forall|name: Seq<char>| lower_text(last_segment(name, '.')) == "bash"@ ==> #[trigger] color_for_type_spec(name, FileType::Regular) == LsColor::Rgb(0x4E, 0xAA, 0x25),
        forall|name: Seq<char>| lower_text(last_segment(name, '.')) == "zsh"@ ==> #[trigger] color_for_type_spec(name, FileType::Regular) == LsColor::Rgb(0x4E, 0xAA, 0x25),
        forall|name: Seq<char>| lower_text(last_segment(name, '.')) == "fish"@ ==> #[trigger] color_for_type_spec(name, FileType::Regular) == LsColor::Rgb(0x4E, 0xAA, 0x25),
        forall|name: Seq<char>| lower_text(last_segment(name, '.')) == "lua"@ ==> #[trigger] color_for_type_spec(name, FileType::Regular) == LsColor::Rgb(0x00, 0x00, 0x80),
        forall|name: Seq<char>| lower_text(last_segment(name, '.')) == "swift"@ ==> #[trigger] color_for_type_spec(name, FileType::Regular) == LsColor::Rgb(0xFA, 0x73, 0x43),
{
    reveal_strlit("bash");
    reveal_strlit("c");
    reveal_strlit("cc");
    reveal_strlit("cjs");
    reveal_strlit("cpp");
    reveal_strlit("crate");
    reveal_strlit("cts");
    reveal_strlit("cxx");
    reveal_strlit("erb");
    reveal_strlit("fish");
    reveal_strlit("gemspec");
    reveal_strlit("go");
    reveal_strlit("h");
    reveal_strlit("hpp");
    reveal_strlit("jar");
    reveal_strlit("java");
    reveal_strlit("js");
    reveal_strlit("jsx");
    reveal_strlit("lua");
    reveal_strlit("mjs");
    reveal_strlit("mts");
    reveal_strlit("pxd");
    reveal_strlit("py");
    reveal_strlit("pyc");
    reveal_strlit("pyi");
    reveal_strlit("pyx");
    reveal_strlit("rake");
    reveal_strlit("rb");
    reveal_strlit("rbi");
    reveal_strlit("rbs");
    reveal_strlit("rlib");
    reveal_strlit("rmeta");
    reveal_strlit("rs");
    reveal_strlit("sh");
    reveal_strlit("swift");
    reveal_strlit("ts");
    reveal_strlit("tsx");
    reveal_strlit("zsh");
    assert("bash"@.len() == 4 && "bash"@[0] == 'b' && "bash"@[1] == 'a' && "bash"@[2] == 's' && "bash"@[3] == 'h');
    assert("c"@.len() == 1 && "c"@[0] == 'c');
    assert("cc"@.len() == 2 && "cc"@[0] == 'c' && "cc"@[1] == 'c');
    assert("cjs"@.len() == 3 && "cjs"@[0] == 'c' && "cjs"@[1] == 'j' && "cjs"@[2] == 's');
    assert("cpp"@.len() == 3 && "cpp"@[0] == 'c' && "cpp"@[1] == 'p' && "cpp"@[2] == 'p');
    assert("crate"@.len() == 5 && "crate"@[0] == 'c' && "crate"@[1] == 'r' && "crate"@[2] == 'a' && "crate"@[3] == 't' && "crate"@[4] == 'e');
    assert("cts"@.len() == 3 && "cts"@[0] == 'c' && "cts"@[1] == 't' && "cts"@[2] == 's');
    assert("cxx"@.len() == 3 && "cxx"@[0] == 'c' && "cxx"@[1] == 'x' && "cxx"@[2] == 'x');
    assert("erb"@.len() == 3 && "erb"@[0] == 'e' && "erb"@[1] == 'r' && "erb"@[2] == 'b');
    assert("fish"@.len() == 4 && "fish"@[0] == 'f' && "fish"@[1] == 'i' && "fish"@[2] == 's' && "fish"@[3] == 'h');
    assert("gemspec"@.len() == 7 && "gemspec"@[0] == 'g' && "gemspec"@[1] == 'e' && "gemspec"@[2] == 'm' && "gemspec"@[3] == 's' && "gemspec"@[4] == 'p' && "gemspec"@[5] == 'e' && "gemspec"@[6] == 'c');
    assert("go"@.len() == 2 && "go"@[0] == 'g' && "go"@[1] == 'o');
    assert("h"@.len() == 1 && "h"@[0] == 'h');
    assert("hpp"@.len() == 3 && "hpp"@[0] == 'h' && "hpp"@[1] == 'p' && "hpp"@[2] == 'p');
    assert("jar"@.len() == 3 && "jar"@[0] == 'j' && "jar"@[1] == 'a' && "jar"@[2] == 'r');
    assert("java"@.len() == 4 && "java"@[0] == 'j' && "java"@[1] == 'a' && "java"@[2] == 'v' && "java"@[3] == 'a');
    assert("js"@.len() == 2 && "js"@[0] == 'j' && "js"@[1] == 's');
    assert("jsx"@.len() == 3 && "jsx"@[0] == 'j' && "jsx"@[1] == 's' && "jsx"@[2] == 'x');
    assert("lua"@.len() == 3 && "lua"@[0] == 'l' && "lua"@[1] == 'u' && "lua"@[2] == 'a');
    assert("mjs"@.len() == 3 && "mjs"@[0] == 'm' && "mjs"@[1] == 'j' && "mjs"@[2] == 's');
    assert("mts"@.len() == 3 && "mts"@[0] == 'm' && "mts"@[1] == 't' && "mts"@[2] == 's');
    assert("pxd"@.len() == 3 && "pxd"@[0] == 'p' && "pxd"@[1] == 'x' && "pxd"@[2] == 'd');
    assert("py"@.len() == 2 && "py"@[0] == 'p' && "py"@[1] == 'y');
    assert("pyc"@.len() == 3 && "pyc"@[0] == 'p' && "pyc"@[1] == 'y' && "pyc"@[2] == 'c');
    assert("pyi"@.len() == 3 && "pyi"@[0] == 'p' && "pyi"@[1] == 'y' && "pyi"@[2] == 'i');
    assert("pyx"@.len() == 3 && "pyx"@[0] == 'p' && "pyx"@[1] == 'y' && "pyx"@[2] == 'x');
    assert("rake"@.len() == 4 && "rake"@[0] == 'r' && "rake"@[1] == 'a' && "rake"@[2] == 'k' && "rake"@[3] == 'e');
    assert("rb"@.len() == 2 && "rb"@[0] == 'r' && "rb"@[1] == 'b');
    assert("rbi"@.len() == 3 && "rbi"@[0] == 'r' && "rbi"@[1] == 'b' && "rbi"@[2] == 'i');
    assert("rbs"@.len() == 3 && "rbs"@[0] == 'r' && "rbs"@[1] == 'b' && "rbs"@[2] == 's');
    assert("rlib"@.len() == 4 && "rlib"@[0] == 'r' && "rlib"@[1] == 'l' && "rlib"@[2] == 'i' && "rlib"@[3] == 'b');
    assert("rmeta"@.len() == 5 && "rmeta"@[0] == 'r' && "rmeta"@[1] == 'm' && "rmeta"@[2] == 'e' && "rmeta"@[3] == 't' && "rmeta"@[4] == 'a');
    assert("rs"@.len() == 2 && "rs"@[0] == 'r' && "rs"@[1] == 's');
    assert("sh"@.len() == 2 && "sh"@[0] == 's' && "sh"@[1] == 'h');
    assert("swift"@.len() == 5 && "swift"@[0] == 's' && "swift"@[1] == 'w' && "swift"@[2] == 'i' && "swift"@[3] == 'f' && "swift"@[4] == 't');
    assert("ts"@.len() == 2 && "ts"@[0] == 't' && "ts"@[1] == 's');
    assert("tsx"@.len() == 3 && "tsx"@[0] == 't' && "tsx"@[1] == 's' && "tsx"@[2] == 'x');
    assert("zsh"@.len() == 3 && "zsh"@[0] == 'z' && "zsh"@[1] == 's' && "zsh"@[2] == 'h');
    assert(ext_color("rs"@) == Some(LsColor::Rgb(0xCE, 0x42, 0x2B)));
    assert(ext_color("rlib"@) == Some(LsColor::Rgb(0xCE, 0x42, 0x2B)));
    assert(ext_color("rmeta"@) == Some(LsColor::Rgb(0xCE, 0x42, 0x2B)));
    assert(ext_color("crate"@) == Some(LsColor::Rgb(0xCE, 0x42, 0x2B)));
    assert(ext_color("py"@) == Some(LsColor::Rgb(0x37, 0x76, 0xAB)));
    assert(ext_color("pyc"@) == Some(LsColor::Rgb(0x37, 0x76, 0xAB)));
    assert(ext_color("pyi"@) == Some(LsColor::Rgb(0x37, 0x76, 0xAB)));
    assert(ext_color("pyx"@) == Some(LsColor::Rgb(0x37, 0x76, 0xAB)));
    assert(ext_color("pxd"@) == Some(LsColor::Rgb(0x37, 0x76, 0xAB)));
    assert(ext_color("rb"@) == Some(LsColor::Rgb(0xCC, 0x34, 0x2D)));
    assert(ext_color("erb"@) == Some(LsColor::Rgb(0xCC, 0x34, 0x2D)));
    assert(ext_color("rbs"@) == Some(LsColor::Rgb(0xCC, 0x34, 0x2D)));
    assert(ext_color("rbi"@) == Some(LsColor::Rgb(0xCC, 0x34, 0x2D)));
    assert(ext_color("gemspec"@) == Some(LsColor::Rgb(0xCC, 0x34, 0x2D)));
    assert(ext_color("rake"@) == Some(LsColor::Rgb(0xCC, 0x34, 0x2D)));
    assert(ext_color("js"@) == Some(LsColor::Rgb(0xF7, 0xDF, 0x1E)));
    assert(ext_color("mjs"@) == Some(LsColor::Rgb(0xF7, 0xDF, 0x1E)));
    assert(ext_color("cjs"@) == Some(LsColor::Rgb(0xF7, 0xDF, 0x1E)));
    assert(ext_color("jsx"@) == Some(LsColor::Rgb(0xF7, 0xDF, 0x1E)));
    assert(ext_color("ts"@) == Some(LsColor::Rgb(0x31, 0x78, 0xC6)));
    assert(ext_color("mts"@) == Some(LsColor::Rgb(0x31, 0x78, 0xC6)));
    assert(ext_color("cts"@) == Some(LsColor::Rgb(0x31, 0x78, 0xC6)));
    assert(ext_color("tsx"@) == Some(LsColor::Rgb(0x31, 0x78, 0xC6)));
    assert(ext_color("go"@) == Some(LsColor::Rgb(0x00, 0xAD, 0xD8)));
    assert(ext_color("java"@) == Some(LsColor::Rgb(0xED, 0x8B, 0x00)));
    assert(ext_color("jar"@) == Some(LsColor::Rgb(0xED, 0x8B, 0x00)));
    assert(ext_color("c"@) == Some(LsColor::Rgb(0xA8, 0xB9, 0xCC)));
    assert(ext_color("h"@) == Some(LsColor::Rgb(0xA8, 0xB9, 0xCC)));
    assert(ext_color("cpp"@) == Some(LsColor::Rgb(0x00, 0x59, 0x9C)));
    assert(ext_color("cc"@) == Some(LsColor::Rgb(0x00, 0x59, 0x9C)));
    assert(ext_color("cxx"@) == Some(LsColor::Rgb(0x00, 0x59, 0x9C)));
    assert(ext_color("hpp"@) == Some(LsColor::Rgb(0x00, 0x59, 0x9C)));
    assert(ext_color("sh"@) == Some(LsColor::Rgb(0x4E, 0xAA, 0x25)));
    assert(ext_color("bash"@) == Some(LsColor::Rgb(0x4E, 0xAA, 0x25)));
    assert(ext_color("zsh"@) == Some(LsColor::Rgb(0x4E, 0xAA, 0x25)));
    assert(ext_color("fish"@) == Some(LsColor::Rgb(0x4E, 0xAA, 0x25)));
    assert(ext_color("lua"@) == Some(LsColor::Rgb(0x00, 0x00, 0x80)));
    assert(ext_color("swift"@) == Some(LsColor::Rgb(0xFA, 0x73, 0x43)));
}

/// Regular files with these extensions (in any case) get these
/// colours: part 2 of the colour table.
pub proof fn lemma_color_table_1()
    ensures
        forall|name: Seq<char>| lower_text(last_segment(name, '.')) == "dart"@ ==> #[trigger] color_for_type_spec(name, FileType::Regular) == LsColor::Rgb(0x01, 0x75, 0xC2),
        forall|name: Seq<char>| lower_text(last_segment(name, '.')) == "sql"@ ==> #[trigger] color_for_type_spec(name, FileType::Regular) == LsColor::Rgb(0xE3, 0x8C, 0x00),
        forall|name: Seq<char>| lower_text(last_segment(name, '.')) == "cu"@ ==> #[trigger] color_for_type_spec(name, FileType::Regular) == LsColor::Rgb(0x76, 0xB9, 0x00),
        forall|name: Seq<char>| lower_text(last_segment(name, '.')) == "cuh"@ ==> #[trigger] color_for_type_spec(name, FileType::Regular) == LsColor::Rgb(0x76, 0xB9, 0x00),
        forall|name: Seq<char>| lower_text(last_segment(name, '.')) == "kt"@ ==> #[trigger] color_for_type_spec(name, FileType::Regular) == LsColor::Rgb(0x7F, 0x52, 0xFF),
        forall|name: Seq<char>| lower_text(last_segment(name, '.')) == "kts"@ ==> #[trigger] color_for_type_spec(name, FileType::Regular) == LsColor::Rgb(0x7F, 0x52, 0xFF),
        forall|name: Seq<char>| lower_text(last_segment(name, '.')) == "cs"@ ==> #[trigger] color_for_type_spec(name, FileType::Regular) == LsColor::Rgb(0x51, 0x2B, 0xD4),
        forall|name: Seq<char>| lower_text(last_segment(name, '.')) == "php"@ ==> #[trigger] color_for_type_spec(name, FileType::Regular) == LsColor::Rgb(0x77, 0x7B, 0xB4),
        forall|name: Seq<char>| lower_text(last_segment(name, '.')) == "html"@ ==> #[trigger] color_for_type_spec(name, FileType::Regular) == LsColor::Rgb(0xE3, 0x4F, 0x26),
        forall|name: Seq<char>| lower_text(last_segment(name, '.')) == "htm"@ ==> #[trigger] color_for_type_spec(name, FileType::Regular) == LsColor::Rgb(0xE3, 0x4F, 0x26),
        forall|name: Seq<char>| lower_text(last_segment(name, '.')) == "css"@ ==> #[trigger] color_for_type_spec(name, FileType::Regular) == LsColor::Rgb(0x15, 0x72, 0xB6),
        forall|name: Seq<char>| lower_text(last_segment(name, '.')) == "scss"@ ==> #[trigger] color_for_type_spec(name, FileType::Regular) == LsColor::Rgb(0xCF, 0x64, 0x9A),
        forall|name: Seq<char>| lower_text(last_segment(name, '.')) == "sass"@ ==> #[trigger] color_for_type_spec(name, FileType::Regular) == LsColor::Rgb(0xCF, 0x64, 0x9A),
        forall|name: Seq<char>| lower_text(last_segment(name, '.')) == "vue"@ ==> #[trigger] color_for_type_spec(name, FileType::Regular) == LsColor::Rgb(0x4F, 0xC0, 0x8D),
        forall|name: Seq<char>| lower_text(last_segment(name, '.')) == "svelte"@ ==> #[trigger] color_for_type_spec(name, FileType::Regular) == LsColor::Rgb(0xFF, 0x3E, 0x00),
        forall|name: Seq<char>| lower_text(last_segment(name, '.')) == "wasm"@ ==> #[trigger] color_for_type_spec(name, FileType::Regular) == LsColor::Rgb(0x65, 0x4F, 0xF0),
        forall|name: Seq<char>| lower_text(last_segment(name, '.')) == "wat"@ ==> #[trigger] color_for_type_spec(name, FileType::Regular) == LsColor::Rgb(0x65, 0x4F, 0xF0),
{
    reveal_strlit("bash");
    reveal_strlit("c");
    reveal_strlit("cc");
    reveal_strlit("cjs");
    reveal_strlit("cpp");
    reveal_strlit("crate");
    reveal_strlit("cs");
    reveal_strlit("css");
    reveal_strlit("cts");
    reveal_strlit("cu");
    reveal_strlit("cuh");
    reveal_strlit("cxx");
    reveal_strlit("dart");
    reveal_strlit("erb");
    reveal_strlit("fish");
    reveal_strlit("gemspec");
    reveal_strlit("go");
    reveal_strlit("h");
    reveal_strlit("hpp");
    reveal_strlit("htm");
    reveal_strlit("html");
    reveal_strlit("jar");
    reveal_strlit("java");
    reveal_strlit("js");
    reveal_strlit("jsx");
    reveal_strlit("kt");
    reveal_strlit("kts");
    reveal_strlit("lua");
    reveal_strlit("mjs");
    reveal_strlit("mts");
    reveal_strlit("php");
    reveal_strlit("pxd");
    reveal_strlit("py");
    reveal_strlit("pyc");
    reveal_strlit("pyi");
    reveal_strlit("pyx");
    reveal_strlit("rake");
    reveal_strlit("rb");
    reveal_strlit("rbi");
    reveal_strlit("rbs");
    reveal_strlit("rlib");
    reveal_strlit("rmeta");
    reveal_strlit("rs");
    reveal_strlit("sass");
    reveal_strlit("scss");
    reveal_strlit("sh");
    reveal_strlit("sql");
    reveal_strlit("svelte");
    reveal_strlit("swift");
    reveal_strlit("ts");
    reveal_strlit("tsx");
    reveal_strlit("vue");
    reveal_strlit("wasm");
    reveal_strlit("wat");
    reveal_strlit("zsh");
    assert("bash"@.len() == 4 && "bash"@[0] == 'b' && "bash"@[1] == 'a' && "bash"@[2] == 's' && "bash"@[3] == 'h');
    assert("c"@.len() == 1 && "c"@[0] == 'c');
    assert("cc"@.len() == 2 && "cc"@[0] == 'c' && "cc"@[1] == 'c');
    assert("cjs"@.len() == 3 && "cjs"@[0] == 'c' && "cjs"@[1] == 'j' && "cjs"@[2] == 's');
    assert("cpp"@.len() == 3 && "cpp"@[0] == 'c' && "cpp"@[1] == 'p' && "cpp"@[2] == 'p');
    assert("crate"@.len() == 5 && "crate"@[0] == 'c' && "crate"@[1] == 'r' && "crate"@[2] == 'a' && "crate"@[3] == 't' && "crate"@[4] == 'e');
    assert("cs"@.len() == 2 && "cs"@[0] == 'c' && "cs"@[1] == 's');
    assert("css"@.len() == 3 && "css"@[0] == 'c' && "css"@[1] == 's' && "css"@[2] == 's');
    assert("cts"@.len() == 3 && "cts"@[0] == 'c' && "cts"@[1] == 't' && "cts"@[2] == 's');
    assert("cu"@.len() == 2 && "cu"@[0] == 'c' && "cu"@[1] == 'u');
    assert("cuh"@.len() == 3 && "cuh"@[0] == 'c' && "cuh"@[1] == 'u' && "cuh"@[2] == 'h');
    assert("cxx"@.len() == 3 && "cxx"@[0] == 'c' && "cxx"@[1] == 'x' && "cxx"@[2] == 'x');
    assert("dart"@.len() == 4 && "dart"@[0] == 'd' && "dart"@[1] == 'a' && "dart"@[2] == 'r' && "dart"@[3] == 't');
    assert("erb"@.len() == 3 && "erb"@[0] == 'e' && "erb"@[1] == 'r' && "erb"@[2] == 'b');
    assert("fish"@.len() == 4 && "fish"@[0] == 'f' && "fish"@[1] == 'i' && "fish"@[2] == 's' && "fish"@[3] == 'h');
    assert("gemspec"@.len() == 7 && "gemspec"@[0] == 'g' && "gemspec"@[1] == 'e' && "gemspec"@[2] == 'm' && "gemspec"@[3] == 's' && "gemspec"@[4] == 'p' && "gemspec"@[5] == 'e' && "gemspec"@[6] == 'c');
    assert("go"@.len() == 2 && "go"@[0] == 'g' && "go"@[1] == 'o');
    assert("h"@.len() == 1 && "h"@[0] == 'h');
    assert("hpp"@.len() == 3 && "hpp"@[0] == 'h' && "hpp"@[1] == 'p' && "hpp"@[2] == 'p');
    assert("htm"@.len() == 3 && "htm"@[0] == 'h' && "htm"@[1] == 't' && "htm"@[2] == 'm');
    assert("html"@.len() == 4 && "html"@[0] == 'h' && "html"@[1] == 't' && "html"@[2] == 'm' && "html"@[3] == 'l');
    assert("jar"@.len() == 3 && "jar"@[0] == 'j' && "jar"@[1] == 'a' && "jar"@[2] == 'r');
    assert("java"@.len() == 4 && "java"@[0] == 'j' && "java"@[1] == 'a' && "java"@[2] == 'v' && "java"@[3] == 'a');
    assert("js"@.len() == 2 && "js"@[0] == 'j' && "js"@[1] == 's');
    assert("jsx"@.len() == 3 && "jsx"@[0] == 'j' && "jsx"@[1] == 's' && "jsx"@[2] == 'x');
    assert("kt"@.len() == 2 && "kt"@[0] == 'k' && "kt"@[1] == 't');
    assert("kts"@.len() == 3 && "kts"@[0] == 'k' && "kts"@[1] == 't' && "kts"@[2] == 's');
    assert("lua"@.len() == 3 && "lua"@[0] == 'l' && "lua"@[1] == 'u' && "lua"@[2] == 'a');
    assert("mjs"@.len() == 3 && "mjs"@[0] == 'm' && "mjs"@[1] == 'j' && "mjs"@[2] == 's');
    assert("mts"@.len() == 3 && "mts"@[0] == 'm' && "mts"@[1] == 't' && "mts"@[2] == 's');
    assert("php"@.len() == 3 && "php"@[0] == 'p' && "php"@[1] == 'h' && "php"@[2] == 'p');
    assert("pxd"@.len() == 3 && "pxd"@[0] == 'p' && "pxd"@[1] == 'x' && "pxd"@[2] == 'd');
    assert("py"@.len() == 2 && "py"@[0] == 'p' && "py"@[1] == 'y');
    assert("pyc"@.len() == 3 && "pyc"@[0] == 'p' && "pyc"@[1] == 'y' && "pyc"@[2] == 'c');
    assert("pyi"@.len() == 3 && "pyi"@[0] == 'p' && "pyi"@[1] == 'y' && "pyi"@[2] == 'i');
    assert("pyx"@.len() == 3 && "pyx"@[0] == 'p' && "pyx"@[1] == 'y' && "pyx"@[2] == 'x');
    assert("rake"@.len() == 4 && "rake"@[0] == 'r' && "rake"@[1] == 'a' && "rake"@[2] == 'k' && "rake"@[3] == 'e');
    assert("rb"@.len() == 2 && "rb"@[0] == 'r' && "rb"@[1] == 'b');
    assert("rbi"@.len() == 3 && "rbi"@[0] == 'r' && "rbi"@[1] == 'b' && "rbi"@[2] == 'i');
    assert("rbs"@.len() == 3 && "rbs"@[0] == 'r' && "rbs"@[1] == 'b' && "rbs"@[2] == 's');
    assert("rlib"@.len() == 4 && "rlib"@[0] == 'r' && "rlib"@[1] == 'l' && "rlib"@[2] == 'i' && "rlib"@[3] == 'b');
    assert("rmeta"@.len() == 5 && "rmeta"@[0] == 'r' && "rmeta"@[1] == 'm' && "rmeta"@[2] == 'e' && "rmeta"@[3] == 't' && "rmeta"@[4] == 'a');
    assert("rs"@.len() == 2 && "rs"@[0] == 'r' && "rs"@[1] == 's');
    assert("sass"@.len() == 4 && "sass"@[0] == 's' && "sass"@[1] == 'a' && "sass"@[2] == 's' && "sass"@[3] == 's');
    assert("scss"@.len() == 4 && "scss"@[0] == 's' && "scss"@[1] == 'c' && "scss"@[2] == 's' && "scss"@[3] == 's');
    assert("sh"@.len() == 2 && "sh"@[0] == 's' && "sh"@[1] == 'h');
    assert("sql"@.len() == 3 && "sql"@[0] == 's' && "sql"@[1] == 'q' && "sql"@[2] == 'l');
    assert("svelte"@.len() == 6 && "svelte"@[0] == 's' && "svelte"@[1] == 'v' && "svelte"@[2] == 'e' && "svelte"@[3] == 'l' && "svelte"@[4] == 't' && "svelte"@[5] == 'e');
    assert("swift"@.len() == 5 && "swift"@[0] == 's' && "swift"@[1] == 'w' && "swift"@[2] == 'i' && "swift"@[3] == 'f' && "swift"@[4] == 't');
    assert("ts"@.len() == 2 && "ts"@[0] == 't' && "ts"@[1] == 's');
    assert("tsx"@.len() == 3 && "tsx"@[0] == 't' && "tsx"@[1] == 's' && "tsx"@[2] == 'x');
    assert("vue"@.len() == 3 && "vue"@[0] == 'v' && "vue"@[1] == 'u' && "vue"@[2] == 'e');
    assert("wasm"@.len() == 4 && "wasm"@[0] == 'w' && "wasm"@[1] == 'a' && "wasm"@[2] == 's' && "wasm"@[3] == 'm');
    assert("wat"@.len() == 3 && "wat"@[0] == 'w' && "wat"@[1] == 'a' && "wat"@[2] == 't');
    assert("zsh"@.len() == 3 && "zsh"@[0] == 'z' && "zsh"@[1] == 's' && "zsh"@[2] == 'h');
    assert(ext_color("dart"@) == Some(LsColor::Rgb(0x01, 0x75, 0xC2)));
    assert(ext_color("sql"@) == Some(LsColor::Rgb(0xE3, 0x8C, 0x00)));
    assert(ext_color("cu"@) == Some(LsColor::Rgb(0x76, 0xB9, 0x00)));
    assert(ext_color("cuh"@) == Some(LsColor::Rgb(0x76, 0xB9, 0x00)));
    assert(ext_color("kt"@) == Some(LsColor::Rgb(0x7F, 0x52, 0xFF)));
    assert(ext_color("kts"@) == Some(LsColor::Rgb(0x7F, 0x52, 0xFF)));
    assert(ext_color("cs"@) == Some(LsColor::Rgb(0x51, 0x2B, 0xD4)));
    assert(ext_color("php"@) == Some(LsColor::Rgb(0x77, 0x7B, 0xB4)));
    assert(ext_color("html"@) == Some(LsColor::Rgb(0xE3, 0x4F, 0x26)));
    assert(ext_color("htm"@) == Some(LsColor::Rgb(0xE3, 0x4F, 0x26)));
    assert(ext_color("css"@) == Some(LsColor::Rgb(0x15, 0x72, 0xB6)));
    assert(ext_color("scss"@) == Some(LsColor::Rgb(0xCF, 0x64, 0x9A)));
    assert(ext_color("sass"@) == Some(LsColor::Rgb(0xCF, 0x64, 0x9A)));
    assert(ext_color("vue"@) == Some(LsColor::Rgb(0x4F, 0xC0, 0x8D)));
    assert(ext_color("svelte"@) == Some(LsColor::Rgb(0xFF, 0x3E, 0x00)));
    assert(ext_color("wasm"@) == Some(LsColor::Rgb(0x65, 0x4F, 0xF0)));
    assert(ext_color("wat"@) == Some(LsColor::Rgb(0x65, 0x4F, 0xF0)));
}

/// Regular files with these extensions (in any case) get these
/// colours: part 3 of the colour table.
pub proof fn lemma_color_table_2()
    ensures
        forall|name: Seq<char>| lower_text(last_segment(name, '.')) == "json"@ ==> #[trigger] color_for_type_spec(name, FileType::Regular) == LsColor::Rgb(0xCB, 0xCB, 0x41),
        forall|name: Seq<char>| lower_text(last_segment(name, '.')) == "jsonl"@ ==> #[trigger] color_for_type_spec(name, FileType::Regular) == LsColor::Rgb(0xCB, 0xCB, 0x41),
        forall|name: Seq<char>| lower_text(last_segment(name, '.')) == "yaml"@ ==> #[trigger] color_for_type_spec(name, FileType::Regular) == LsColor::Rgb(0xCB, 0x17, 0x1E),
        forall|name: Seq<char>| lower_text(last_segment(name, '.')) == "yml"@ ==> #[trigger] color_for_type_spec(name, FileType::Regular) == LsColor::Rgb(0xCB, 0x17, 0x1E),
        forall|name: Seq<char>| lower_text(last_segment(name, '.')) == "toml"@ ==> #[trigger] color_for_type_spec(name, FileType::Regular) == LsColor::Rgb(0x9C, 0x41, 0x21),
        forall|name: Seq<char>| lower_text(last_segment(name, '.')) == "xml"@ ==> #[trigger] color_for_type_spec(name, FileType::Regular) == LsColor::Rgb(0xF8, 0x00, 0x00),
        forall|name: Seq<char>| lower_text(last_segment(name, '.')) == "csv"@ ==> #[trigger] color_for_type_spec(name, FileType::Regular) == LsColor::Rgb(0x23, 0x73, 0x46),
        forall|name: Seq<char>| lower_text(last_segment(name, '.')) == "proto"@ ==> #[trigger] color_for_type_spec(name, FileType::Regular) == LsColor::Rgb(0x42, 0x85, 0xF4),
        forall|name: Seq<char>| lower_text(last_segment(name, '.')) == "pb"@ ==> #[trigger] color_for_type_spec(name, FileType::Regular) == LsColor::Rgb(0x42, 0x85, 0xF4),
        forall|name: Seq<char>| lower_text(last_segment(name, '.')) == "md"@ ==> #[trigger] color_for_type_spec(name, FileType::Regular) == LsColor::Rgb(0xFF, 0xFF, 0xFF),
        forall|name: Seq<char>| lower_text(last_segment(name, '.')) == "markdown"@ ==> #[trigger] color_for_type_spec(name, FileType::Regular) == LsColor::Rgb(0xFF, 0xFF, 0xFF),
        forall|name: Seq<char>| lower_text(last_segment(name, '.')) == "mdx"@ ==> #[trigger] color_for_type_spec(name, FileType::Regular) == LsColor::Rgb(0xFF, 0xFF, 0xFF),
        forall|name: Seq<char>| lower_text(last_segment(name, '.')) == "txt"@ ==> #[trigger] color_for_type_spec(name, FileType::Regular) == LsColor::Rgb(0xAA, 0xAA, 0xAA),
        forall|name: Seq<char>| lower_text(last_segment(name, '.')) == "pdf"@ ==> #[trigger] color_for_type_spec(name, FileType::Regular) == LsColor::Rgb(0xFF, 0x00, 0x00),
        forall|name: Seq<char>| lower_text(last_segment(name, '.')) == "mp4"@ ==> #[trigger] color_for_type_spec(name, FileType::Regular) == LsColor::Rgb(0xFF, 0x00, 0x00),
        forall|name: Seq<char>| lower_text(last_segment(name, '.')) == "mkv"@ ==> #[trigger] color_for_type_spec(name, FileType::Regular) == LsColor::Rgb(0xFF, 0x00, 0x00),
        forall|name: Seq<char>| lower_text(last_segment(name, '.')) == "avi"@ ==> #[trigger] color_for_type_spec(name, FileType::Regular) == LsColor::Rgb(0xFF, 0x00, 0x00),
        forall|name: Seq<char>| lower_text(last_segment(name, '.')) == "mov"@ ==> #[trigger] color_for_type_spec(name, FileType::Regular) == LsColor::Rgb(0xFF, 0x00, 0x00),
        forall|name: Seq<char>| lower_text(last_segment(name, '.')) == "webm"@ ==> #[trigger] color_for_type_spec(name, FileType::Regular) == LsColor::Rgb(0xFF, 0x00, 0x00),
        forall|name: Seq<char>| lower_text(last_segment(name, '.')) == "doc"@ ==> #[trigger] color_for_type_spec(name, FileType::Regular) == LsColor::Rgb(0x2B, 0x57, 0x9A),
        forall|name: Seq<char>| lower_text(last_segment(name, '.')) == "docx"@ ==> #[trigger] color_for_type_spec(name, FileType::Regular) == LsColor::Rgb(0x2B, 0x57, 0x9A),
        forall|name: Seq<char>| lower_text(last_segment(name, '.')) == "xls"@ ==> #[trigger] color_for_type_spec(name, FileType::Regular) == LsColor::Rgb(0x21, 0x73, 0x46),
        forall|name: Seq<char>| lower_text(last_segment(name, '.')) == "xlsx"@ ==> #[trigger] color_for_type_spec(name, FileType::Regular) == LsColor::Rgb(0x21, 0x73, 0x46),
        forall|name: Seq<char>| lower_text(last_segment(name, '.')) == "gitignore"@ ==> #[trigger] color_for_type_spec(name, FileType::Regular) == LsColor::Rgb(0xF0, 0x50, 0x32),
        forall|name: Seq<char>| lower_text(last_segment(name, '.')) == "gitattributes"@ ==> #[trigger] color_for_type_spec(name, FileType::Regular) == LsColor::Rgb(0xF0, 0x50, 0x32),
        forall|name: Seq<char>| lower_text(last_segment(name, '.')) == "gitmodules"@ ==> #[trigger] color_for_type_spec(name, FileType::Regular) == LsColor::Rgb(0xF0, 0x50, 0x32),
{
    reveal_strlit("avi");
    reveal_strlit("bash");
    reveal_strlit("c");
    reveal_strlit("cc");
    reveal_strlit("cjs");
    reveal_strlit("cpp");
    reveal_strlit("crate");
    reveal_strlit("cs");
    reveal_strlit("css");
    reveal_strlit("csv");
    reveal_strlit("cts");
    reveal_strlit("cu");
    reveal_strlit("cuh");
    reveal_strlit("cxx");
    reveal_strlit("dart");
    reveal_strlit("doc");
    reveal_strlit("docx");
    reveal_strlit("erb");
    reveal_strlit("fish");
    reveal_strlit("gemspec");
    reveal_strlit("gitattributes");
    reveal_strlit("gitignore");
    reveal_strlit("gitmodules");
    reveal_strlit("go");
    reveal_strlit("h");
    reveal_strlit("hpp");
    reveal_strlit("htm");
    reveal_strlit("html");
    reveal_strlit("jar");
    reveal_strlit("java");
    reveal_strlit("js");
    reveal_strlit("json");
    reveal_strlit("jsonl");
    reveal_strlit("jsx");
    reveal_strlit("kt");
    reveal_strlit("kts");
    reveal_strlit("lua");
    reveal_strlit("markdown");
    reveal_strlit("md");
    reveal_strlit("mdx");
    reveal_strlit("mjs");
    reveal_strlit("mkv");
    reveal_strlit("mov");
    reveal_strlit("mp4");
    reveal_strlit("mts");
    reveal_strlit("pb");
    reveal_strlit("pdf");
    reveal_strlit("php");
    reveal_strlit("proto");
    reveal_strlit("pxd");
    reveal_strlit("py");
    reveal_strlit("pyc");
    reveal_strlit("pyi");
    reveal_strlit("pyx");
    reveal_strlit("rake");
    reveal_strlit("rb");
    reveal_strlit("rbi");
    reveal_strlit("rbs");
    reveal_strlit("rlib");
    reveal_strlit("rmeta");
    reveal_strlit("rs");
    reveal_strlit("sass");
    reveal_strlit("scss");
    reveal_strlit("sh");
    reveal_strlit("sql");
    reveal_strlit("svelte");
    reveal_strlit("swift");
    reveal_strlit("toml");
    reveal_strlit("ts");
    reveal_strlit("tsx");
    reveal_strlit("txt");
    reveal_strlit("vue");
    reveal_strlit("wasm");
    reveal_strlit("wat");
    reveal_strlit("webm");
    reveal_strlit("xls");
    reveal_strlit("xlsx");
    reveal_strlit("xml");
    reveal_strlit("yaml");
    reveal_strlit("yml");
    reveal_strlit("zsh");
    assert("avi"@.len() == 3 && "avi"@[0] == 'a' && "avi"@[1] == 'v' && "avi"@[2] == 'i');
    assert("bash"@.len() == 4 && "bash"@[0] == 'b' && "bash"@[1] == 'a' && "bash"@[2] == 's' && "bash"@[3] == 'h');
    assert("c"@.len() == 1 && "c"@[0] == 'c');
    assert("cc"@.len() == 2 && "cc"@[0] == 'c' && "cc"@[1] == 'c');
    assert("cjs"@.len() == 3 && "cjs"@[0] == 'c' && "cjs"@[1] == 'j' && "cjs"@[2] == 's');
    assert("cpp"@.len() == 3 && "cpp"@[0] == 'c' && "cpp"@[1] == 'p' && "cpp"@[2] == 'p');
    assert("crate"@.len() == 5 && "crate"@[0] == 'c' && "crate"@[1] == 'r' && "crate"@[2] == 'a' && "crate"@[3] == 't' && "crate"@[4] == 'e');
    assert("cs"@.len() == 2 && "cs"@[0] == 'c' && "cs"@[1] == 's');
    assert("css"@.len() == 3 && "css"@[0] == 'c' && "css"@[1] == 's' && "css"@[2] == 's');
    assert("csv"@.len() == 3 && "csv"@[0] == 'c' && "csv"@[1] == 's' && "csv"@[2] == 'v');
    assert("cts"@.len() == 3 && "cts"@[0] == 'c' && "cts"@[1] == 't' && "cts"@[2] == 's');
    assert("cu"@.len() == 2 && "cu"@[0] == 'c' && "cu"@[1] == 'u');
    assert("cuh"@.len() == 3 && "cuh"@[0] == 'c' && "cuh"@[1] == 'u' && "cuh"@[2] == 'h');
    assert("cxx"@.len() == 3 && "cxx"@[0] == 'c' && "cxx"@[1] == 'x' && "cxx"@[2] == 'x');
    assert("dart"@.len() == 4 && "dart"@[0] == 'd' && "dart"@[1] == 'a' && "dart"@[2] == 'r' && "dart"@[3] == 't');
    assert("doc"@.len() == 3 && "doc"@[0] == 'd' && "doc"@[1] == 'o' && "doc"@[2] == 'c');
    assert("docx"@.len() == 4 && "docx"@[0] == 'd' && "docx"@[1] == 'o' && "docx"@[2] == 'c' && "docx"@[3] == 'x');
    assert("erb"@.len() == 3 && "erb"@[0] == 'e' && "erb"@[1] == 'r' && "erb"@[2] == 'b');
    assert("fish"@.len() == 4 && "fish"@[0] == 'f' && "fish"@[1] == 'i' && "fish"@[2] == 's' && "fish"@[3] == 'h');
    assert("gemspec"@.len() == 7 && "gemspec"@[0] == 'g' && "gemspec"@[1] == 'e' && "gemspec"@[2] == 'm' && "gemspec"@[3] == 's' && "gemspec"@[4] == 'p' && "gemspec"@[5] == 'e' && "gemspec"@[6] == 'c');
    assert("gitattributes"@.len() == 13 && "gitattributes"@[0] == 'g' && "gitattributes"@[1] == 'i' && "gitattributes"@[2] == 't' && "gitattributes"@[3] == 'a' && "gitattributes"@[4] == 't' && "gitattributes"@[5] == 't' && "gitattributes"@[6] == 'r' && "gitattributes"@[7] == 'i' && "gitattributes"@[8] == 'b' && "gitattributes"@[9] == 'u' && "gitattributes"@[10] == 't' && "gitattributes"@[11] == 'e' && "gitattributes"@[12] == 's');
    assert("gitignore"@.len() == 9 && "gitignore"@[0] == 'g' && "gitignore"@[1] == 'i' && "gitignore"@[2] == 't' && "gitignore"@[3] == 'i' && "gitignore"@[4] == 'g' && "gitignore"@[5] == 'n' && "gitignore"@[6] == 'o' && "gitignore"@[7] == 'r' && "gitignore"@[8] == 'e');
    assert("gitmodules"@.len() == 10 && "gitmodules"@[0] == 'g' && "gitmodules"@[1] == 'i' && "gitmodules"@[2] == 't' && "gitmodules"@[3] == 'm' && "gitmodules"@[4] == 'o' && "gitmodules"@[5] == 'd' && "gitmodules"@[6] == 'u' && "gitmodules"@[7] == 'l' && "gitmodules"@[8] == 'e' && "gitmodules"@[9] == 's');
    assert("go"@.len() == 2 && "go"@[0] == 'g' && "go"@[1] == 'o');
    assert("h"@.len() == 1 && "h"@[0] == 'h');
    assert("hpp"@.len() == 3 && "hpp"@[0] == 'h' && "hpp"@[1] == 'p' && "hpp"@[2] == 'p');
    assert("htm"@.len() == 3 && "htm"@[0] == 'h' && "htm"@[1] == 't' && "htm"@[2] == 'm');
    assert("html"@.len() == 4 && "html"@[0] == 'h' && "html"@[1] == 't' && "html"@[2] == 'm' && "html"@[3] == 'l');
    assert("jar"@.len() == 3 && "jar"@[0] == 'j' && "jar"@[1] == 'a' && "jar"@[2] == 'r');
    assert("java"@.len() == 4 && "java"@[0] == 'j' && "java"@[1] == 'a' && "java"@[2] == 'v' && "java"@[3] == 'a');
    assert("js"@.len() == 2 && "js"@[0] == 'j' && "js"@[1] == 's');
    assert("json"@.len() == 4 && "json"@[0] == 'j' && "json"@[1] == 's' && "json"@[2] == 'o' && "json"@[3] == 'n');
    assert("jsonl"@.len() == 5 && "jsonl"@[0] == 'j' && "jsonl"@[1] == 's' && "jsonl"@[2] == 'o' && "jsonl"@[3] == 'n' && "jsonl"@[4] == 'l');
    assert("jsx"@.len() == 3 && "jsx"@[0] == 'j' && "jsx"@[1] == 's' && "jsx"@[2] == 'x');
    assert("kt"@.len() == 2 && "kt"@[0] == 'k' && "kt"@[1] == 't');
    assert("kts"@.len() == 3 && "kts"@[0] == 'k' && "kts"@[1] == 't' && "kts"@[2] == 's');
    assert("lua"@.len() == 3 && "lua"@[0] == 'l' && "lua"@[1] == 'u' && "lua"@[2] == 'a');
    assert("markdown"@.len() == 8 && "markdown"@[0] == 'm' && "markdown"@[1] == 'a' && "markdown"@[2] == 'r' && "markdown"@[3] == 'k' && "markdown"@[4] == 'd' && "markdown"@[5] == 'o' && "markdown"@[6] == 'w' && "markdown"@[7] == 'n');
    assert("md"@.len() == 2 && "md"@[0] == 'm' && "md"@[1] == 'd');
    assert("mdx"@.len() == 3 && "mdx"@[0] == 'm' && "mdx"@[1] == 'd' && "mdx"@[2] == 'x');
    assert("mjs"@.len() == 3 && "mjs"@[0] == 'm' && "mjs"@[1] == 'j' && "mjs"@[2] == 's');
    assert("mkv"@.len() == 3 && "mkv"@[0] == 'm' && "mkv"@[1] == 'k' && "mkv"@[2] == 'v');
    assert("mov"@.len() == 3 && "mov"@[0] == 'm' && "mov"@[1] == 'o' && "mov"@[2] == 'v');
    assert("mp4"@.len() == 3 && "mp4"@[0] == 'm' && "mp4"@[1] == 'p' && "mp4"@[2] == '4');
    assert("mts"@.len() == 3 && "mts"@[0] == 'm' && "mts"@[1] == 't' && "mts"@[2] == 's');
    assert("pb"@.len() == 2 && "pb"@[0] == 'p' && "pb"@[1] == 'b');
    assert("pdf"@.len() == 3 && "pdf"@[0] == 'p' && "pdf"@[1] == 'd' && "pdf"@[2] == 'f');
    assert("php"@.len() == 3 && "php"@[0] == 'p' && "php"@[1] == 'h' && "php"@[2] == 'p');
    assert("proto"@.len() == 5 && "proto"@[0] == 'p' && "proto"@[1] == 'r' && "proto"@[2] == 'o' && "proto"@[3] == 't' && "proto"@[4] == 'o');
    assert("pxd"@.len() == 3 && "pxd"@[0] == 'p' && "pxd"@[1] == 'x' && "pxd"@[2] == 'd');
    assert("py"@.len() == 2 && "py"@[0] == 'p' && "py"@[1] == 'y');
    assert("pyc"@.len() == 3 && "pyc"@[0] == 'p' && "pyc"@[1] == 'y' && "pyc"@[2] == 'c');
    assert("pyi"@.len() == 3 && "pyi"@[0] == 'p' && "pyi"@[1] == 'y' && "pyi"@[2] == 'i');
    assert("pyx"@.len() == 3 && "pyx"@[0] == 'p' && "pyx"@[1] == 'y' && "pyx"@[2] == 'x');
    assert("rake"@.len() == 4 && "rake"@[0] == 'r' && "rake"@[1] == 'a' && "rake"@[2] == 'k' && "rake"@[3] == 'e');
    assert("rb"@.len() == 2 && "rb"@[0] == 'r' && "rb"@[1] == 'b');
    assert("rbi"@.len() == 3 && "rbi"@[0] == 'r' && "rbi"@[1] == 'b' && "rbi"@[2] == 'i');
    assert("rbs"@.len() == 3 && "rbs"@[0] == 'r' && "rbs"@[1] == 'b' && "rbs"@[2] == 's');
    assert("rlib"@.len() == 4 && "rlib"@[0] == 'r' && "rlib"@[1] == 'l' && "rlib"@[2] == 'i' && "rlib"@[3] == 'b');
    assert("rmeta"@.len() == 5 && "rmeta"@[0] == 'r' && "rmeta"@[1] == 'm' && "rmeta"@[2] == 'e' && "rmeta"@[3] == 't' && "rmeta"@[4] == 'a');
    assert("rs"@.len() == 2 && "rs"@[0] == 'r' && "rs"@[1] == 's');
    assert("sass"@.len() == 4 && "sass"@[0] == 's' && "sass"@[1] == 'a' && "sass"@[2] == 's' && "sass"@[3] == 's');
    assert("scss"@.len() == 4 && "scss"@[0] == 's' && "scss"@[1] == 'c' && "scss"@[2] == 's' && "scss"@[3] == 's');
    assert("sh"@.len() == 2 && "sh"@[0] == 's' && "sh"@[1] == 'h');
    assert("sql"@.len() == 3 && "sql"@[0] == 's' && "sql"@[1] == 'q' && "sql"@[2] == 'l');
    assert("svelte"@.len() == 6 && "svelte"@[0] == 's' && "svelte"@[1] == 'v' && "svelte"@[2] == 'e' && "svelte"@[3] == 'l' && "svelte"@[4] == 't' && "svelte"@[5] == 'e');
    assert("swift"@.len() == 5 && "swift"@[0] == 's' && "swift"@[1] == 'w' && "swift"@[2] == 'i' && "swift"@[3] == 'f' && "swift"@[4] == 't');
    assert("toml"@.len() == 4 && "toml"@[0] == 't' && "toml"@[1] == 'o' && "toml"@[2] == 'm' && "toml"@[3] == 'l');
    assert("ts"@.len() == 2 && "ts"@[0] == 't' && "ts"@[1] == 's');
    assert("tsx"@.len() == 3 && "tsx"@[0] == 't' && "tsx"@[1] == 's' && "tsx"@[2] == 'x');
    assert("txt"@.len() == 3 && "txt"@[0] == 't' && "txt"@[1] == 'x' && "txt"@[2] == 't');
    assert("vue"@.len() == 3 && "vue"@[0] == 'v' && "vue"@[1] == 'u' && "vue"@[2] == 'e');
    assert("wasm"@.len() == 4 && "wasm"@[0] == 'w' && "wasm"@[1] == 'a' && "wasm"@[2] == 's' && "wasm"@[3] == 'm');
    assert("wat"@.len() == 3 && "wat"@[0] == 'w' && "wat"@[1] == 'a' && "wat"@[2] == 't');
    assert("webm"@.len() == 4 && "webm"@[0] == 'w' && "webm"@[1] == 'e' && "webm"@[2] == 'b' && "webm"@[3] == 'm');
    assert("xls"@.len() == 3 && "xls"@[0] == 'x' && "xls"@[1] == 'l' && "xls"@[2] == 's');
    assert("xlsx"@.len() == 4 && "xlsx"@[0] == 'x' && "xlsx"@[1] == 'l' && "xlsx"@[2] == 's' && "xlsx"@[3] == 'x');
    assert("xml"@.len() == 3 && "xml"@[0] == 'x' && "xml"@[1] == 'm' && "xml"@[2] == 'l');
    assert("yaml"@.len() == 4 && "yaml"@[0] == 'y' && "yaml"@[1] == 'a' && "yaml"@[2] == 'm' && "yaml"@[3] == 'l');
    assert("yml"@.len() == 3 && "yml"@[0] == 'y' && "yml"@[1] == 'm' && "yml"@[2] == 'l');
    assert("zsh"@.len() == 3 && "zsh"@[0] == 'z' && "zsh"@[1] == 's' && "zsh"@[2] == 'h');
    assert(ext_color("json"@) == Some(LsColor::Rgb(0xCB, 0xCB, 0x41)));
    assert(ext_color("jsonl"@) == Some(LsColor::Rgb(0xCB, 0xCB, 0x41)));
    assert(ext_color("yaml"@) == Some(LsColor::Rgb(0xCB, 0x17, 0x1E)));
    assert(ext_color("yml"@) == Some(LsColor::Rgb(0xCB, 0x17, 0x1E)));
    assert(ext_color("toml"@) == Some(LsColor::Rgb(0x9C, 0x41, 0x21)));
    assert(ext_color("xml"@) == Some(LsColor::Rgb(0xF8, 0x00, 0x00)));
    assert(ext_color("csv"@) == Some(LsColor::Rgb(0x23, 0x73, 0x46)));
    assert(ext_color("proto"@) == Some(LsColor::Rgb(0x42, 0x85, 0xF4)));
    assert(ext_color("pb"@) == Some(LsColor::Rgb(0x42, 0x85, 0xF4)));
    assert(ext_color("md"@) == Some(LsColor::Rgb(0xFF, 0xFF, 0xFF)));
    assert(ext_color("markdown"@) == Some(LsColor::Rgb(0xFF, 0xFF, 0xFF)));
    assert(ext_color("mdx"@) == Some(LsColor::Rgb(0xFF, 0xFF, 0xFF)));
    assert(ext_color("txt"@) == Some(LsColor::Rgb(0xAA, 0xAA, 0xAA)));
    assert(ext_color("pdf"@) == Some(LsColor::Rgb(0xFF, 0x00, 0x00)));
    assert(ext_color("mp4"@) == Some(LsColor::Rgb(0xFF, 0x00, 0x00)));
    assert(ext_color("mkv"@) == Some(LsColor::Rgb(0xFF, 0x00, 0x00)));
    assert(ext_color("avi"@) == Some(LsColor::Rgb(0xFF, 0x00, 0x00)));
    assert(ext_color("mov"@) == Some(LsColor::Rgb(0xFF, 0x00, 0x00)));
    assert(ext_color("webm"@) == Some(LsColor::Rgb(0xFF, 0x00, 0x00)));
    assert(ext_color("doc"@) == Some(LsColor::Rgb(0x2B, 0x57, 0x9A)));
    assert(ext_color("docx"@) == Some(LsColor::Rgb(0x2B, 0x57, 0x9A)));
    assert(ext_color("xls"@) == Some(LsColor::Rgb(0x21, 0x73, 0x46)));
    assert(ext_color("xlsx"@) == Some(LsColor::Rgb(0x21, 0x73, 0x46)));
    assert(ext_color("gitignore"@) == Some(LsColor::Rgb(0xF0, 0x50, 0x32)));
    assert(ext_color("gitattributes"@) == Some(LsColor::Rgb(0xF0, 0x50, 0x32)));
    assert(ext_color("gitmodules"@) == Some(LsColor::Rgb(0xF0, 0x50, 0x32)));
}

/// Regular files with these extensions (in any case) get these
/// colours: part 4 of the colour table.
pub proof fn lemma_color_table_3()
    ensures
        forall|name: Seq<char>| lower_text(last_segment(name, '.')) == "ini"@ ==> #[trigger] color_for_type_spec(name, FileType::Regular) == LsColor::Rgb(0x6D, 0x80, 0x86),
        forall|name: Seq<char>| lower_text(last_segment(name, '.')) == "cfg"@ ==> #[trigger] color_for_type_spec(name, FileType::Regular) == LsColor::Rgb(0x6D, 0x80, 0x86),
        forall|name: Seq<char>| lower_text(last_segment(name, '.')) == "conf"@ ==> #[trigger] color_for_type_spec(name, FileType::Regular) == LsColor::Rgb(0x6D, 0x80, 0x86),
        forall|name: Seq<char>| lower_text(last_segment(name, '.')) == "plist"@ ==> #[trigger] color_for_type_spec(name, FileType::Regular) == LsColor::Rgb(0x99, 0x99, 0x99),
        forall|name: Seq<char>| lower_text(last_segment(name, '.')) == "dockerfile"@ ==> #[trigger] color_for_type_spec(name, FileType::Regular) == LsColor::Rgb(0x24, 0x96, 0xED),
        forall|name: Seq<char>| lower_text(last_segment(name, '.')) == "tf"@ ==> #[trigger] color_for_type_spec(name, FileType::Regular) == LsColor::Rgb(0x7B, 0x42, 0xBC),
        forall|name: Seq<char>| lower_text(last_segment(name, '.')) == "tfvars"@ ==> #[trigger] color_for_type_spec(name, FileType::Regular) == LsColor::Rgb(0x7B, 0x42, 0xBC),
        forall|name: Seq<char>| lower_text(last_segment(name, '.')) == "png"@ ==> #[trigger] color_for_type_spec(name, FileType::Regular) == LsColor::Rgb(0xFF, 0x69, 0xB4),
        forall|name: Seq<char>| lower_text(last_segment(name, '.')) == "jpg"@ ==> #[trigger] color_for_type_spec(name, FileType::Regular) == LsColor::Rgb(0xFF, 0x69, 0xB4),
        forall|name: Seq<char>| lower_text(last_segment(name, '.')) == "jpeg"@ ==> #[trigger] color_for_type_spec(name, FileType::Regular) == LsColor::Rgb(0xFF, 0x69, 0xB4),
        forall|name: Seq<char>| lower_text(last_segment(name, '.')) == "gif"@ ==> #[trigger] color_for_type_spec(name, FileType::Regular) == LsColor::Rgb(0xFF, 0x69, 0xB4),
        forall|name: Seq<char>| lower_text(last_segment(name, '.')) == "webp"@ ==> #[trigger] color_for_type_spec(name, FileType::Regular) == LsColor::Rgb(0xFF, 0x69, 0xB4),
        forall|name: Seq<char>| lower_text(last_segment(name, '.')) == "bmp"@ ==> #[trigger] color_for_type_spec(name, FileType::Regular) == LsColor::Rgb(0xFF, 0x69, 0xB4),
        forall|name: Seq<char>| lower_text(last_segment(name, '.')) == "ico"@ ==> #[trigger] color_for_type_spec(name, FileType::Regular) == LsColor::Rgb(0xFF, 0x69, 0xB4),
        forall|name: Seq<char>| lower_text(last_segment(name, '.')) == "heic"@ ==> #[trigger] color_for_type_spec(name, FileType::Regular) == LsColor::Rgb(0xFF, 0x69, 0xB4),
        forall|name: Seq<char>| lower_text(last_segment(name, '.')) == "svg"@ ==> #[trigger] color_for_type_spec(name, FileType::Regular) == LsColor::Rgb(0xFF, 0xB1, 0x3B),
        forall|name: Seq<char>| lower_text(last_segment(name, '.')) == "mp3"@ ==> #[trigger] color_for_type_spec(name, FileType::Regular) == LsColor::Rgb(0x1D, 0xB9, 0x54),
        forall|name: Seq<char>| lower_text(last_segment(name, '.')) == "wav"@ ==> #[trigger] color_for_type_spec(name, FileType::Regular) == LsColor::Rgb(0x1D, 0xB9, 0x54),
        forall|name: Seq<char>| lower_text(last_segment(name, '.')) == "flac"@ ==> #[trigger] color_for_type_spec(name, FileType::Regular) == LsColor::Rgb(0x1D, 0xB9, 0x54),
        forall|name: Seq<char>| lower_text(last_segment(name, '.')) == "ogg"@ ==> #[trigger] color_for_type_spec(name, FileType::Regular) == LsColor::Rgb(0x1D, 0xB9, 0x54),
        forall|name: Seq<char>| lower_text(last_segment(name, '.')) == "m4a"@ ==> #[trigger] color_for_type_spec(name, FileType::Regular) == LsColor::Rgb(0x1D, 0xB9, 0x54),
        forall|name: Seq<char>| lower_text(last_segment(name, '.')) == "zip"@ ==> #[trigger] color_for_type_spec(name, FileType::Regular) == LsColor::Rgb(0xF9, 0xE2, 0xAF),
        forall|name: Seq<char>| lower_text(last_segment(name, '.')) == "tar"@ ==> #[trigger] color_for_type_spec(name, FileType::Regular) == LsColor::Rgb(0xF9, 0xE2, 0xAF),
        forall|name: Seq<char>| lower_text(last_segment(name, '.')) == "gz"@ ==> #[trigger] color_for_type_spec(name, FileType::Regular) == LsColor::Rgb(0xF9, 0xE2, 0xAF),
        forall|name: Seq<char>| lower_text(last_segment(name, '.')) == "tgz"@ ==> #[trigger] color_for_type_spec(name, FileType::Regular) == LsColor::Rgb(0xF9, 0xE2, 0xAF),
        forall|name: Seq<char>| lower_text(last_segment(name, '.')) == "bz2"@ ==> #[trigger] color_for_type_spec(name, FileType::Regular) == LsColor::Rgb(0xF9, 0xE2, 0xAF),
        forall|name: Seq<char>| lower_text(last_segment(name, '.')) == "xz"@ ==> #[trigger] color_for_type_spec(name, FileType::Regular) == LsColor::Rgb(0xF9, 0xE2, 0xAF),
        forall|name: Seq<char>| lower_text(last_segment(name, '.')) == "rar"@ ==> #[trigger] color_for_type_spec(name, FileType::Regular) == LsColor::Rgb(0xF9, 0xE2, 0xAF),
        forall|name: Seq<char>| lower_text(last_segment(name, '.')) == "7z"@ ==> #[trigger] color_for_type_spec(name, FileType::Regular) == LsColor::Rgb(0xF9, 0xE2, 0xAF),
        forall|name: Seq<char>| lower_text(last_segment(name, '.')) == "deb"@ ==> #[trigger] color_for_type_spec(name, FileType::Regular) == LsColor::Rgb(0xA8, 0x00, 0x30),
        forall|name: Seq<char>| lower_text(last_segment(name, '.')) == "rpm"@ ==> #[trigger] color_for_type_spec(name, FileType::Regular) == LsColor::Rgb(0xEE, 0x00, 0x00),
        forall|name: Seq<char>| lower_text(last_segment(name, '.')) == "o"@ ==> #[trigger] color_for_type_spec(name, FileType::Regular) == LsColor::Rgb(0x6D, 0x6D, 0x6D),
        forall|name: Seq<char>| lower_text(last_segment(name, '.')) == "a"@ ==> #[trigger] color_for_type_spec(name, FileType::Regular) == LsColor::Rgb(0x6D, 0x6D, 0x6D),
        forall|name: Seq<char>| lower_text(last_segment(name, '.')) == "so"@ ==> #[trigger] color_for_type_spec(name, FileType::Regular) == LsColor::Rgb(0x5C, 0x6B, 0xC0),
        forall|name: Seq<char>| lower_text(last_segment(name, '.')) == "dylib"@ ==> #[trigger] color_for_type_spec(name, FileType::Regular) == LsColor::Rgb(0x5C, 0x6B, 0xC0),
        forall|name: Seq<char>| lower_text(last_segment(name, '.')) == "dll"@ ==> #[trigger] color_for_type_spec(name, FileType::Regular) == LsColor::Rgb(0x5C, 0x6B, 0xC0),
{
    reveal_strlit("7z");
    reveal_strlit("a");
    reveal_strlit("avi");
    reveal_strlit("bash");
    reveal_strlit("bmp");
    reveal_strlit("bz2");
    reveal_strlit("c");
    reveal_strlit("cc");
    reveal_strlit("cfg");
    reveal_strlit("cjs");
    reveal_strlit("conf");
    reveal_strlit("cpp");
    reveal_strlit("crate");
    reveal_strlit("cs");
    reveal_strlit("css");
    reveal_strlit("csv");
    reveal_strlit("cts");
    reveal_strlit("cu");
    reveal_strlit("cuh");
    reveal_strlit("cxx");
    reveal_strlit("dart");
    reveal_strlit("deb");
    reveal_strlit("dll");
    reveal_strlit("doc");
    reveal_strlit("dockerfile");
    reveal_strlit("docx");
    reveal_strlit("dylib");
    reveal_strlit("erb");
    reveal_strlit("fish");
    reveal_strlit("flac");
    reveal_strlit("gemspec");
    reveal_strlit("gif");
    reveal_strlit("gitattributes");
    reveal_strlit("gitignore");
    reveal_strlit("gitmodules");
    reveal_strlit("go");
    reveal_strlit("gz");
    reveal_strlit("h");
    reveal_strlit("heic");
    reveal_strlit("hpp");
    reveal_strlit("htm");
    reveal_strlit("html");
    reveal_strlit("ico");
    reveal_strlit("ini");
    reveal_strlit("jar");
    reveal_strlit("java");
    reveal_strlit("jpeg");
    reveal_strlit("jpg");
    reveal_strlit("js");
    reveal_strlit("json");
    reveal_strlit("jsonl");
    reveal_strlit("jsx");
    reveal_strlit("kt");
    reveal_strlit("kts");
    reveal_strlit("lua");
    reveal_strlit("m4a");
    reveal_strlit("markdown");
    reveal_strlit("md");
    reveal_strlit("mdx");
    reveal_strlit("mjs");
    reveal_strlit("mkv");
    reveal_strlit("mov");
    reveal_strlit("mp3");
    reveal_strlit("mp4");
    reveal_strlit("mts");
    reveal_strlit("o");
    reveal_strlit("ogg");
    reveal_strlit("pb");
    reveal_strlit("pdf");
    reveal_strlit("php");
    reveal_strlit("plist");
    reveal_strlit("png");
    reveal_strlit("proto");
    reveal_strlit("pxd");
    reveal_strlit("py");
    reveal_strlit("pyc");
    reveal_strlit("pyi");
    reveal_strlit("pyx");
    reveal_strlit("rake");
    reveal_strlit("rar");
    reveal_strlit("rb");
    reveal_strlit("rbi");
    reveal_strlit("rbs");
    reveal_strlit("rlib");
    reveal_strlit("rmeta");
    reveal_strlit("rpm");
    reveal_strlit("rs");
    reveal_strlit("sass");
    reveal_strlit("scss");
    reveal_strlit("sh");
    reveal_strlit("so");
    reveal_strlit("sql");
    reveal_strlit("svelte");
    reveal_strlit("svg");
    reveal_strlit("swift");
    reveal_strlit("tar");
    reveal_strlit("tf");
    reveal_strlit("tfvars");
    reveal_strlit("tgz");
    reveal_strlit("toml");
    reveal_strlit("ts");
    reveal_strlit("tsx");
    reveal_strlit("txt");
    reveal_strlit("vue");
    reveal_strlit("wasm");
    reveal_strlit("wat");
    reveal_strlit("wav");
    reveal_strlit("webm");
    reveal_strlit("webp");
    reveal_strlit("xls");
    reveal_strlit("xlsx");
    reveal_strlit("xml");
    reveal_strlit("xz");
    reveal_strlit("yaml");
    reveal_strlit("yml");
    reveal_strlit("zip");
    reveal_strlit("zsh");
    assert("7z"@.len() == 2 && "7z"@[0] == '7' && "7z"@[1] == 'z');
    assert("a"@.len() == 1 && "a"@[0] == 'a');
    assert("avi"@.len() == 3 && "avi"@[0] == 'a' && "avi"@[1] == 'v' && "avi"@[2] == 'i');
    assert("bash"@.len() == 4 && "bash"@[0] == 'b' && "bash"@[1] == 'a' && "bash"@[2] == 's' && "bash"@[3] == 'h');
    assert("bmp"@.len() == 3 && "bmp"@[0] == 'b' && "bmp"@[1] == 'm' && "bmp"@[2] == 'p');
    assert("bz2"@.len() == 3 && "bz2"@[0] == 'b' && "bz2"@[1] == 'z' && "bz2"@[2] == '2');
    assert("c"@.len() == 1 && "c"@[0] == 'c');
    assert("cc"@.len() == 2 && "cc"@[0] == 'c' && "cc"@[1] == 'c');
    assert("cfg"@.len() == 3 && "cfg"@[0] == 'c' && "cfg"@[1] == 'f' && "cfg"@[2] == 'g');
    assert("cjs"@.len() == 3 && "cjs"@[0] == 'c' && "cjs"@[1] == 'j' && "cjs"@[2] == 's');
    assert("conf"@.len() == 4 && "conf"@[0] == 'c' && "conf"@[1] == 'o' && "conf"@[2] == 'n' && "conf"@[3] == 'f');
    assert("cpp"@.len() == 3 && "cpp"@[0] == 'c' && "cpp"@[1] == 'p' && "cpp"@[2] == 'p');
    assert("crate"@.len() == 5 && "crate"@[0] == 'c' && "crate"@[1] == 'r' && "crate"@[2] == 'a' && "crate"@[3] == 't' && "crate"@[4] == 'e');
    assert("cs"@.len() == 2 && "cs"@[0] == 'c' && "cs"@[1] == 's');
    assert("css"@.len() == 3 && "css"@[0] == 'c' && "css"@[1] == 's' && "css"@[2] == 's');
    assert("csv"@.len() == 3 && "csv"@[0] == 'c' && "csv"@[1] == 's' && "csv"@[2] == 'v');
    assert("cts"@.len() == 3 && "cts"@[0] == 'c' && "cts"@[1] == 't' && "cts"@[2] == 's');
    assert("cu"@.len() == 2 && "cu"@[0] == 'c' && "cu"@[1] == 'u');
    assert("cuh"@.len() == 3 && "cuh"@[0] == 'c' && "cuh"@[1] == 'u' && "cuh"@[2] == 'h');
    assert("cxx"@.len() == 3 && "cxx"@[0] == 'c' && "cxx"@[1] == 'x' && "cxx"@[2] == 'x');
    assert("dart"@.len() == 4 && "dart"@[0] == 'd' && "dart"@[1] == 'a' && "dart"@[2] == 'r' && "dart"@[3] == 't');
    assert("deb"@.len() == 3 && "deb"@[0] == 'd' && "deb"@[1] == 'e' && "deb"@[2] == 'b');
    assert("dll"@.len() == 3 && "dll"@[0] == 'd' && "dll"@[1] == 'l' && "dll"@[2] == 'l');
    assert("doc"@.len() == 3 && "doc"@[0] == 'd' && "doc"@[1] == 'o' && "doc"@[2] == 'c');
    assert("dockerfile"@.len() == 10 && "dockerfile"@[0] == 'd' && "dockerfile"@[1] == 'o' && "dockerfile"@[2] == 'c' && "dockerfile"@[3] == 'k' && "dockerfile"@[4] == 'e' && "dockerfile"@[5] == 'r' && "dockerfile"@[6] == 'f' && "dockerfile"@[7] == 'i' && "dockerfile"@[8] == 'l' && "dockerfile"@[9] == 'e');
    assert("docx"@.len() == 4 && "docx"@[0] == 'd' && "docx"@[1] == 'o' && "docx"@[2] == 'c' && "docx"@[3] == 'x');
    assert("dylib"@.len() == 5 && "dylib"@[0] == 'd' && "dylib"@[1] == 'y' && "dylib"@[2] == 'l' && "dylib"@[3] == 'i' && "dylib"@[4] == 'b');
    assert("erb"@.len() == 3 && "erb"@[0] == 'e' && "erb"@[1] == 'r' && "erb"@[2] == 'b');
    assert("fish"@.len() == 4 && "fish"@[0] == 'f' && "fish"@[1] == 'i' && "fish"@[2] == 's' && "fish"@[3] == 'h');
    assert("flac"@.len() == 4 && "flac"@[0] == 'f' && "flac"@[1] == 'l' && "flac"@[2] == 'a' && "flac"@[3] == 'c');
    assert("gemspec"@.len() == 7 && "gemspec"@[0] == 'g' && "gemspec"@[1] == 'e' && "gemspec"@[2] == 'm' && "gemspec"@[3] == 's' && "gemspec"@[4] == 'p' && "gemspec"@[5] == 'e' && "gemspec"@[6] == 'c');
    assert("gif"@.len() == 3 && "gif"@[0] == 'g' && "gif"@[1] == 'i' && "gif"@[2] == 'f');
    assert("gitattributes"@.len() == 13 && "gitattributes"@[0] == 'g' && "gitattributes"@[1] == 'i' && "gitattributes"@[2] == 't' && "gitattributes"@[3] == 'a' && "gitattributes"@[4] == 't' && "gitattributes"@[5] == 't' && "gitattributes"@[6] == 'r' && "gitattributes"@[7] == 'i' && "gitattributes"@[8] == 'b' && "gitattributes"@[9] == 'u' && "gitattributes"@[10] == 't' && "gitattributes"@[11] == 'e' && "gitattributes"@[12] == 's');
    assert("gitignore"@.len() == 9 && "gitignore"@[0] == 'g' && "gitignore"@[1] == 'i' && "gitignore"@[2] == 't' && "gitignore"@[3] == 'i' && "gitignore"@[4] == 'g' && "gitignore"@[5] == 'n' && "gitignore"@[6] == 'o' && "gitignore"@[7] == 'r' && "gitignore"@[8] == 'e');
    assert("gitmodules"@.len() == 10 && "gitmodules"@[0] == 'g' && "gitmodules"@[1] == 'i' && "gitmodules"@[2] == 't' && "gitmodules"@[3] == 'm' && "gitmodules"@[4] == 'o' && "gitmodules"@[5] == 'd' && "gitmodules"@[6] == 'u' && "gitmodules"@[7] == 'l' && "gitmodules"@[8] == 'e' && "gitmodules"@[9] == 's');
    assert("go"@.len() == 2 && "go"@[0] == 'g' && "go"@[1] == 'o');
    assert("gz"@.len() == 2 && "gz"@[0] == 'g' && "gz"@[1] == 'z');
    assert("h"@.len() == 1 && "h"@[0] == 'h');
    assert("heic"@.len() == 4 && "heic"@[0] == 'h' && "heic"@[1] == 'e' && "heic"@[2] == 'i' && "heic"@[3] == 'c');
    assert("hpp"@.len() == 3 && "hpp"@[0] == 'h' && "hpp"@[1] == 'p' && "hpp"@[2] == 'p');
    assert("htm"@.len() == 3 && "htm"@[0] == 'h' && "htm"@[1] == 't' && "htm"@[2] == 'm');
    assert("html"@.len() == 4 && "html"@[0] == 'h' && "html"@[1] == 't' && "html"@[2] == 'm' && "html"@[3] == 'l');
    assert("ico"@.len() == 3 && "ico"@[0] == 'i' && "ico"@[1] == 'c' && "ico"@[2] == 'o');
    assert("ini"@.len() == 3 && "ini"@[0] == 'i' && "ini"@[1] == 'n' && "ini"@[2] == 'i');
    assert("jar"@.len() == 3 && "jar"@[0] == 'j' && "jar"@[1] == 'a' && "jar"@[2] == 'r');
    assert("java"@.len() == 4 && "java"@[0] == 'j' && "java"@[1] == 'a' && "java"@[2] == 'v' && "java"@[3] == 'a');
    assert("jpeg"@.len() == 4 && "jpeg"@[0] == 'j' && "jpeg"@[1] == 'p' && "jpeg"@[2] == 'e' && "jpeg"@[3] == 'g');
    assert("jpg"@.len() == 3 && "jpg"@[0] == 'j' && "jpg"@[1] == 'p' && "jpg"@[2] == 'g');
    assert("js"@.len() == 2 && "js"@[0] == 'j' && "js"@[1] == 's');
    assert("json"@.len() == 4 && "json"@[0] == 'j' && "json"@[1] == 's' && "json"@[2] == 'o' && "json"@[3] == 'n');
    assert("jsonl"@.len() == 5 && "jsonl"@[0] == 'j' && "jsonl"@[1] == 's' && "jsonl"@[2] == 'o' && "jsonl"@[3] == 'n' && "jsonl"@[4] == 'l');
    assert("jsx"@.len() == 3 && "jsx"@[0] == 'j' && "jsx"@[1] == 's' && "jsx"@[2] == 'x');
    assert("kt"@.len() == 2 && "kt"@[0] == 'k' && "kt"@[1] == 't');
    assert("kts"@.len() == 3 && "kts"@[0] == 'k' && "kts"@[1] == 't' && "kts"@[2] == 's');
    assert("lua"@.len() == 3 && "lua"@[0] == 'l' && "lua"@[1] == 'u' && "lua"@[2] == 'a');
    assert("m4a"@.len() == 3 && "m4a"@[0] == 'm' && "m4a"@[1] == '4' && "m4a"@[2] == 'a');
    assert("markdown"@.len() == 8 && "markdown"@[0] == 'm' && "markdown"@[1] == 'a' && "markdown"@[2] == 'r' && "markdown"@[3] == 'k' && "markdown"@[4] == 'd' && "markdown"@[5] == 'o' && "markdown"@[6] == 'w' && "markdown"@[7] == 'n');
    assert("md"@.len() == 2 && "md"@[0] == 'm' && "md"@[1] == 'd');
    assert("mdx"@.len() == 3 && "mdx"@[0] == 'm' && "mdx"@[1] == 'd' && "mdx"@[2] == 'x');
    assert("mjs"@.len() == 3 && "mjs"@[0] == 'm' && "mjs"@[1] == 'j' && "mjs"@[2] == 's');
    assert("mkv"@.len() == 3 && "mkv"@[0] == 'm' && "mkv"@[1] == 'k' && "mkv"@[2] == 'v');
    assert("mov"@.len() == 3 && "mov"@[0] == 'm' && "mov"@[1] == 'o' && "mov"@[2] == 'v');
    assert("mp3"@.len() == 3 && "mp3"@[0] == 'm' && "mp3"@[1] == 'p' && "mp3"@[2] == '3');
    assert("mp4"@.len() == 3 && "mp4"@[0] == 'm' && "mp4"@[1] == 'p' && "mp4"@[2] == '4');
    assert("mts"@.len() == 3 && "mts"@[0] == 'm' && "mts"@[1] == 't' && "mts"@[2] == 's');
    assert("o"@.len() == 1 && "o"@[0] == 'o');
    assert("ogg"@.len() == 3 && "ogg"@[0] == 'o' && "ogg"@[1] == 'g' && "ogg"@[2] == 'g');
    assert("pb"@.len() == 2 && "pb"@[0] == 'p' && "pb"@[1] == 'b');
    assert("pdf"@.len() == 3 && "pdf"@[0] == 'p' && "pdf"@[1] == 'd' && "pdf"@[2] == 'f');
    assert("php"@.len() == 3 && "php"@[0] == 'p' && "php"@[1] == 'h' && "php"@[2] == 'p');
    assert("plist"@.len() == 5 && "plist"@[0] == 'p' && "plist"@[1] == 'l' && "plist"@[2] == 'i' && "plist"@[3] == 's' && "plist"@[4] == 't');
    assert("png"@.len() == 3 && "png"@[0] == 'p' && "png"@[1] == 'n' && "png"@[2] == 'g');
    assert("proto"@.len() == 5 && "proto"@[0] == 'p' && "proto"@[1] == 'r' && "proto"@[2] == 'o' && "proto"@[3] == 't' && "proto"@[4] == 'o');
    assert("pxd"@.len() == 3 && "pxd"@[0] == 'p' && "pxd"@[1] == 'x' && "pxd"@[2] == 'd');
    assert("py"@.len() == 2 && "py"@[0] == 'p' && "py"@[1] == 'y');
    assert("pyc"@.len() == 3 && "pyc"@[0] == 'p' && "pyc"@[1] == 'y' && "pyc"@[2] == 'c');
    assert("pyi"@.len() == 3 && "pyi"@[0] == 'p' && "pyi"@[1] == 'y' && "pyi"@[2] == 'i');
    assert("pyx"@.len() == 3 && "pyx"@[0] == 'p' && "pyx"@[1] == 'y' && "pyx"@[2] == 'x');
    assert("rake"@.len() == 4 && "rake"@[0] == 'r' && "rake"@[1] == 'a' && "rake"@[2] == 'k' && "rake"@[3] == 'e');
    assert("rar"@.len() == 3 && "rar"@[0] == 'r' && "rar"@[1] == 'a' && "rar"@[2] == 'r');
    assert("rb"@.len() == 2 && "rb"@[0] == 'r' && "rb"@[1] == 'b');
    assert("rbi"@.len() == 3 && "rbi"@[0] == 'r' && "rbi"@[1] == 'b' && "rbi"@[2] == 'i');
    assert("rbs"@.len() == 3 && "rbs"@[0] == 'r' && "rbs"@[1] == 'b' && "rbs"@[2] == 's');
    assert("rlib"@.len() == 4 && "rlib"@[0] == 'r' && "rlib"@[1] == 'l' && "rlib"@[2] == 'i' && "rlib"@[3] == 'b');
    assert("rmeta"@.len() == 5 && "rmeta"@[0] == 'r' && "rmeta"@[1] == 'm' && "rmeta"@[2] == 'e' && "rmeta"@[3] == 't' && "rmeta"@[4] == 'a');
    assert("rpm"@.len() == 3 && "rpm"@[0] == 'r' && "rpm"@[1] == 'p' && "rpm"@[2] == 'm');
    assert("rs"@.len() == 2 && "rs"@[0] == 'r' && "rs"@[1] == 's');
    assert("sass"@.len() == 4 && "sass"@[0] == 's' && "sass"@[1] == 'a' && "sass"@[2] == 's' && "sass"@[3] == 's');
    assert("scss"@.len() == 4 && "scss"@[0] == 's' && "scss"@[1] == 'c' && "scss"@[2] == 's' && "scss"@[3] == 's');
    assert("sh"@.len() == 2 && "sh"@[0] == 's' && "sh"@[1] == 'h');
    assert("so"@.len() == 2 && "so"@[0] == 's' && "so"@[1] == 'o');
    assert("sql"@.len() == 3 && "sql"@[0] == 's' && "sql"@[1] == 'q' && "sql"@[2] == 'l');
    assert("svelte"@.len() == 6 && "svelte"@[0] == 's' && "svelte"@[1] == 'v' && "svelte"@[2] == 'e' && "svelte"@[3] == 'l' && "svelte"@[4] == 't' && "svelte"@[5] == 'e');
    assert("svg"@.len() == 3 && "svg"@[0] == 's' && "svg"@[1] == 'v' && "svg"@[2] == 'g');
    assert("swift"@.len() == 5 && "swift"@[0] == 's' && "swift"@[1] == 'w' && "swift"@[2] == 'i' && "swift"@[3] == 'f' && "swift"@[4] == 't');
    assert("tar"@.len() == 3 && "tar"@[0] == 't' && "tar"@[1] == 'a' && "tar"@[2] == 'r');
    assert("tf"@.len() == 2 && "tf"@[0] == 't' && "tf"@[1] == 'f');
    assert("tfvars"@.len() == 6 && "tfvars"@[0] == 't' && "tfvars"@[1] == 'f' && "tfvars"@[2] == 'v' && "tfvars"@[3] == 'a' && "tfvars"@[4] == 'r' && "tfvars"@[5] == 's');
    assert("tgz"@.len() == 3 && "tgz"@[0] == 't' && "tgz"@[1] == 'g' && "tgz"@[2] == 'z');
    assert("toml"@.len() == 4 && "toml"@[0] == 't' && "toml"@[1] == 'o' && "toml"@[2] == 'm' && "toml"@[3] == 'l');
    assert("ts"@.len() == 2 && "ts"@[0] == 't' && "ts"@[1] == 's');
    assert("tsx"@.len() == 3 && "tsx"@[0] == 't' && "tsx"@[1] == 's' && "tsx"@[2] == 'x');
    assert("txt"@.len() == 3 && "txt"@[0] == 't' && "txt"@[1] == 'x' && "txt"@[2] == 't');
    assert("vue"@.len() == 3 && "vue"@[0] == 'v' && "vue"@[1] == 'u' && "vue"@[2] == 'e');
    assert("wasm"@.len() == 4 && "wasm"@[0] == 'w' && "wasm"@[1] == 'a' && "wasm"@[2] == 's' && "wasm"@[3] == 'm');
    assert("wat"@.len() == 3 && "wat"@[0] == 'w' && "wat"@[1] == 'a' && "wat"@[2] == 't');
    assert("wav"@.len() == 3 && "wav"@[0] == 'w' && "wav"@[1] == 'a' && "wav"@[2] == 'v');
    assert("webm"@.len() == 4 && "webm"@[0] == 'w' && "webm"@[1] == 'e' && "webm"@[2] == 'b' && "webm"@[3] == 'm');
    assert("webp"@.len() == 4 && "webp"@[0] == 'w' && "webp"@[1] == 'e' && "webp"@[2] == 'b' && "webp"@[3] == 'p');
    assert("xls"@.len() == 3 && "xls"@[0] == 'x' && "xls"@[1] == 'l' && "xls"@[2] == 's');
    assert("xlsx"@.len() == 4 && "xlsx"@[0] == 'x' && "xlsx"@[1] == 'l' && "xlsx"@[2] == 's' && "xlsx"@[3] == 'x');
    assert("xml"@.len() == 3 && "xml"@[0] == 'x' && "xml"@[1] == 'm' && "xml"@[2] == 'l');
    assert("xz"@.len() == 2 && "xz"@[0] == 'x' && "xz"@[1] == 'z');
    assert("yaml"@.len() == 4 && "yaml"@[0] == 'y' && "yaml"@[1] == 'a' && "yaml"@[2] == 'm' && "yaml"@[3] == 'l');
    assert("yml"@.len() == 3 && "yml"@[0] == 'y' && "yml"@[1] == 'm' && "yml"@[2] == 'l');
    assert("zip"@.len() == 3 && "zip"@[0] == 'z' && "zip"@[1] == 'i' && "zip"@[2] == 'p');
    assert("zsh"@.len() == 3 && "zsh"@[0] == 'z' && "zsh"@[1] == 's' && "zsh"@[2] == 'h');
    assert(ext_color("ini"@) == Some(LsColor::Rgb(0x6D, 0x80, 0x86)));
    assert(ext_color("cfg"@) == Some(LsColor::Rgb(0x6D, 0x80, 0x86)));
    assert(ext_color("conf"@) == Some(LsColor::Rgb(0x6D, 0x80, 0x86)));
    assert(ext_color("plist"@) == Some(LsColor::Rgb(0x99, 0x99, 0x99)));
    assert(ext_color("dockerfile"@) == Some(LsColor::Rgb(0x24, 0x96, 0xED)));
    assert(ext_color("tf"@) == Some(LsColor::Rgb(0x7B, 0x42, 0xBC)));
    assert(ext_color("tfvars"@) == Some(LsColor::Rgb(0x7B, 0x42, 0xBC)));
    assert(ext_color("png"@) == Some(LsColor::Rgb(0xFF, 0x69, 0xB4)));
    assert(ext_color("jpg"@) == Some(LsColor::Rgb(0xFF, 0x69, 0xB4)));
    assert(ext_color("jpeg"@) == Some(LsColor::Rgb(0xFF, 0x69, 0xB4)));
    assert(ext_color("gif"@) == Some(LsColor::Rgb(0xFF, 0x69, 0xB4)));
    assert(ext_color("webp"@) == Some(LsColor::Rgb(0xFF, 0x69, 0xB4)));
    assert(ext_color("bmp"@) == Some(LsColor::Rgb(0xFF, 0x69, 0xB4)));
    assert(ext_color("ico"@) == Some(LsColor::Rgb(0xFF, 0x69, 0xB4)));
    assert(ext_color("heic"@) == Some(LsColor::Rgb(0xFF, 0x69, 0xB4)));
    assert(ext_color("svg"@) == Some(LsColor::Rgb(0xFF, 0xB1, 0x3B)));
    assert(ext_color("mp3"@) == Some(LsColor::Rgb(0x1D, 0xB9, 0x54)));
    assert(ext_color("wav"@) == Some(LsColor::Rgb(0x1D, 0xB9, 0x54)));
    assert(ext_color("flac"@) == Some(LsColor::Rgb(0x1D, 0xB9, 0x54)));
    assert(ext_color("ogg"@) == Some(LsColor::Rgb(0x1D, 0xB9, 0x54)));
    assert(ext_color("m4a"@) == Some(LsColor::Rgb(0x1D, 0xB9, 0x54)));
    assert(ext_color("zip"@) == Some(LsColor::Rgb(0xF9, 0xE2, 0xAF)));
    assert(ext_color("tar"@) == Some(LsColor::Rgb(0xF9, 0xE2, 0xAF)));
    assert(ext_color("gz"@) == Some(LsColor::Rgb(0xF9, 0xE2, 0xAF)));
    assert(ext_color("tgz"@) == Some(LsColor::Rgb(0xF9, 0xE2, 0xAF)));
    assert(ext_color("bz2"@) == Some(LsColor::Rgb(0xF9, 0xE2, 0xAF)));
    assert(ext_color("xz"@) == Some(LsColor::Rgb(0xF9, 0xE2, 0xAF)));
    assert(ext_color("rar"@) == Some(LsColor::Rgb(0xF9, 0xE2, 0xAF)));
    assert(ext_color("7z"@) == Some(LsColor::Rgb(0xF9, 0xE2, 0xAF)));
    assert(ext_color("deb"@) == Some(LsColor::Rgb(0xA8, 0x00, 0x30)));
    assert(ext_color("rpm"@) == Some(LsColor::Rgb(0xEE, 0x00, 0x00)));
    assert(ext_color("o"@) == Some(LsColor::Rgb(0x6D, 0x6D, 0x6D)));
    assert(ext_color("a"@) == Some(LsColor::Rgb(0x6D, 0x6D, 0x6D)));
    assert(ext_color("so"@) == Some(LsColor::Rgb(0x5C, 0x6B, 0xC0)));
    assert(ext_color("dylib"@) == Some(LsColor::Rgb(0x5C, 0x6B, 0xC0)));
    assert(ext_color("dll"@) == Some(LsColor::Rgb(0x5C, 0x6B, 0xC0)));
}

/// Regular files with these extensions (in any case) get these
/// colours: part 5 of the colour table.
pub proof fn lemma_color_table_4()
    ensures
        forall|name: Seq<char>| lower_text(last_segment(name, '.')) == "exe"@ ==> #[trigger] color_for_type_spec(name, FileType::Regular) == LsColor::Rgb(0x00, 0xFF, 0x00),
        forall|name: Seq<char>| lower_text(last_segment(name, '.')) == "bin"@ ==> #[trigger] color_for_type_spec(name, FileType::Regular) == LsColor::Rgb(0x00, 0xFF, 0x00),
        forall|name: Seq<char>| lower_text(last_segment(name, '.')) == "sqlite"@ ==> #[trigger] color_for_type_spec(name, FileType::Regular) == LsColor::Rgb(0x00, 0x3B, 0x57),
        forall|name: Seq<char>| lower_text(last_segment(name, '.')) == "sqlite3"@ ==> #[trigger] color_for_type_spec(name, FileType::Regular) == LsColor::Rgb(0x00, 0x3B, 0x57),
        forall|name: Seq<char>| lower_text(last_segment(name, '.')) == "db"@ ==> #[trigger] color_for_type_spec(name, FileType::Regular) == LsColor::Rgb(0x00, 0x3B, 0x57),
        forall|name: Seq<char>| lower_text(last_segment(name, '.')) == "onnx"@ ==> #[trigger] color_for_type_spec(name, FileType::Regular) == LsColor::Rgb(0x80, 0x80, 0x80),
        forall|name: Seq<char>| lower_text(last_segment(name, '.')) == "lock"@ ==> #[trigger] color_for_type_spec(name, FileType::Regular) == LsColor::Rgb(0x80, 0x80, 0x80),
        forall|name: Seq<char>| lower_text(last_segment(name, '.')) == "pt"@ ==> #[trigger] color_for_type_spec(name, FileType::Regular) == LsColor::Rgb(0xEE, 0x4C, 0x2C),
        forall|name: Seq<char>| lower_text(last_segment(name, '.')) == "pth"@ ==> #[trigger] color_for_type_spec(name, FileType::Regular) == LsColor::Rgb(0xEE, 0x4C, 0x2C),
        forall|name: Seq<char>| lower_text(last_segment(name, '.')) == "safetensors"@ ==> #[trigger] color_for_type_spec(name, FileType::Regular) == LsColor::Rgb(0x00, 0xB4, 0xD8),
        forall|name: Seq<char>| lower_text(last_segment(name, '.')) == "ttf"@ ==> #[trigger] color_for_type_spec(name, FileType::Regular) == LsColor::Rgb(0xCC, 0xCC, 0xCC),
        forall|name: Seq<char>| lower_text(last_segment(name, '.')) == "otf"@ ==> #[trigger] color_for_type_spec(name, FileType::Regular) == LsColor::Rgb(0xCC, 0xCC, 0xCC),
        forall|name: Seq<char>| lower_text(last_segment(name, '.')) == "woff"@ ==> #[trigger] color_for_type_spec(name, FileType::Regular) == LsColor::Rgb(0xCC, 0xCC, 0xCC),
        forall|name: Seq<char>| lower_text(last_segment(name, '.')) == "woff2"@ ==> #[trigger] color_for_type_spec(name, FileType::Regular) == LsColor::Rgb(0xCC, 0xCC, 0xCC),
        forall|name: Seq<char>| lower_text(last_segment(name, '.')) == "pem"@ ==> #[trigger] color_for_type_spec(name, FileType::Regular) == LsColor::Rgb(0xFF, 0xD7, 0x00),
        forall|name: Seq<char>| lower_text(last_segment(name, '.')) == "crt"@ ==> #[trigger] color_for_type_spec(name, FileType::Regular) == LsColor::Rgb(0xFF, 0xD7, 0x00),
        forall|name: Seq<char>| lower_text(last_segment(name, '.')) == "cer"@ ==> #[trigger] color_for_type_spec(name, FileType::Regular) == LsColor::Rgb(0xFF, 0xD7, 0x00),
        forall|name: Seq<char>| lower_text(last_segment(name, '.')) == "key"@ ==> #[trigger] color_for_type_spec(name, FileType::Regular) == LsColor::Rgb(0xFF, 0xD7, 0x00),
{
    reveal_strlit("7z");
    reveal_strlit("a");
    reveal_strlit("avi");
    reveal_strlit("bash");
    reveal_strlit("bin");
    reveal_strlit("bmp");
    reveal_strlit("bz2");
    reveal_strlit("c");
    reveal_strlit("cc");
    reveal_strlit("cer");
    reveal_strlit("cfg");
    reveal_strlit("cjs");
    reveal_strlit("conf");
    reveal_strlit("cpp");
    reveal_strlit("crate");
    reveal_strlit("crt");
    reveal_strlit("cs");
    reveal_strlit("css");
    reveal_strlit("csv");
    reveal_strlit("cts");
    reveal_strlit("cu");
    reveal_strlit("cuh");
    reveal_strlit("cxx");
    reveal_strlit("dart");
    reveal_strlit("db");
    reveal_strlit("deb");
    reveal_strlit("dll");
    reveal_strlit("doc");
    reveal_strlit("dockerfile");
    reveal_strlit("docx");
    reveal_strlit("dylib");
    reveal_strlit("erb");
    reveal_strlit("exe");
    reveal_strlit("fish");
    reveal_strlit("flac");
    reveal_strlit("gemspec");
    reveal_strlit("gif");
    reveal_strlit("gitattributes");
    reveal_strlit("gitignore");
    reveal_strlit("gitmodules");
    reveal_strlit("go");
    reveal_strlit("gz");
    reveal_strlit("h");
    reveal_strlit("heic");
    reveal_strlit("hpp");
    reveal_strlit("htm");
    reveal_strlit("html");
    reveal_strlit("ico");
    reveal_strlit("ini");
    reveal_strlit("jar");
    reveal_strlit("java");
    reveal_strlit("jpeg");
    reveal_strlit("jpg");
    reveal_strlit("js");
    reveal_strlit("json");
    reveal_strlit("jsonl");
    reveal_strlit("jsx");
    reveal_strlit("key");
    reveal_strlit("kt");
    reveal_strlit("kts");
    reveal_strlit("lock");
    reveal_strlit("lua");
    reveal_strlit("m4a");
    reveal_strlit("markdown");
    reveal_strlit("md");
    reveal_strlit("mdx");
    reveal_strlit("mjs");
    reveal_strlit("mkv");
    reveal_strlit("mov");
    reveal_strlit("mp3");
    reveal_strlit("mp4");
    reveal_strlit("mts");
    reveal_strlit("o");
    reveal_strlit("ogg");
    reveal_strlit("onnx");
    reveal_strlit("otf");
    reveal_strlit("pb");
    reveal_strlit("pdf");
    reveal_strlit("pem");
    reveal_strlit("php");
    reveal_strlit("plist");
    reveal_strlit("png");
    reveal_strlit("proto");
    reveal_strlit("pt");
    reveal_strlit("pth");
    reveal_strlit("pxd");
    reveal_strlit("py");
    reveal_strlit("pyc");
    reveal_strlit("pyi");
    reveal_strlit("pyx");
    reveal_strlit("rake");
    reveal_strlit("rar");
    reveal_strlit("rb");
    reveal_strlit("rbi");
    reveal_strlit("rbs");
    reveal_strlit("rlib");
    reveal_strlit("rmeta");
    reveal_strlit("rpm");
    reveal_strlit("rs");
    reveal_strlit("safetensors");
    reveal_strlit("sass");
    reveal_strlit("scss");
    reveal_strlit("sh");
    reveal_strlit("so");
    reveal_strlit("sql");
    reveal_strlit("sqlite");
    reveal_strlit("sqlite3");
    reveal_strlit("svelte");
    reveal_strlit("svg");
    reveal_strlit("swift");
    reveal_strlit("tar");
    reveal_strlit("tf");
    reveal_strlit("tfvars");
    reveal_strlit("tgz");
    reveal_strlit("toml");
    reveal_strlit("ts");
    reveal_strlit("tsx");
    reveal_strlit("ttf");
    reveal_strlit("txt");
    reveal_strlit("vue");
    reveal_strlit("wasm");
    reveal_strlit("wat");
    reveal_strlit("wav");
    reveal_strlit("webm");
    reveal_strlit("webp");
    reveal_strlit("woff");
    reveal_strlit("woff2");
    reveal_strlit("xls");
    reveal_strlit("xlsx");
    reveal_strlit("xml");
    reveal_strlit("xz");
    reveal_strlit("yaml");
    reveal_strlit("yml");
    reveal_strlit("zip");
    reveal_strlit("zsh");
    assert("7z"@.len() == 2 && "7z"@[0] == '7' && "7z"@[1] == 'z');
    assert("a"@.len() == 1 && "a"@[0] == 'a');
    assert("avi"@.len() == 3 && "avi"@[0] == 'a' && "avi"@[1] == 'v' && "avi"@[2] == 'i');
    assert("bash"@.len() == 4 && "bash"@[0] == 'b' && "bash"@[1] == 'a' && "bash"@[2] == 's' && "bash"@[3] == 'h');
    assert("bin"@.len() == 3 && "bin"@[0] == 'b' && "bin"@[1] == 'i' && "bin"@[2] == 'n');
    assert("bmp"@.len() == 3 && "bmp"@[0] == 'b' && "bmp"@[1] == 'm' && "bmp"@[2] == 'p');
    assert("bz2"@.len() == 3 && "bz2"@[0] == 'b' && "bz2"@[1] == 'z' && "bz2"@[2] == '2');
    assert("c"@.len() == 1 && "c"@[0] == 'c');
    assert("cc"@.len() == 2 && "cc"@[0] == 'c' && "cc"@[1] == 'c');
    assert("cer"@.len() == 3 && "cer"@[0] == 'c' && "cer"@[1] == 'e' && "cer"@[2] == 'r');
    assert("cfg"@.len() == 3 && "cfg"@[0] == 'c' && "cfg"@[1] == 'f' && "cfg"@[2] == 'g');
    assert("cjs"@.len() == 3 && "cjs"@[0] == 'c' && "cjs"@[1] == 'j' && "cjs"@[2] == 's');
    assert("conf"@.len() == 4 && "conf"@[0] == 'c' && "conf"@[1] == 'o' && "conf"@[2] == 'n' && "conf"@[3] == 'f');
    assert("cpp"@.len() == 3 && "cpp"@[0] == 'c' && "cpp"@[1] == 'p' && "cpp"@[2] == 'p');
    assert("crate"@.len() == 5 && "crate"@[0] == 'c' && "crate"@[1] == 'r' && "crate"@[2] == 'a' && "crate"@[3] == 't' && "crate"@[4] == 'e');
    assert("crt"@.len() == 3 && "crt"@[0] == 'c' && "crt"@[1] == 'r' && "crt"@[2] == 't');
    assert("cs"@.len() == 2 && "cs"@[0] == 'c' && "cs"@[1] == 's');
    assert("css"@.len() == 3 && "css"@[0] == 'c' && "css"@[1] == 's' && "css"@[2] == 's');
    assert("csv"@.len() == 3 && "csv"@[0] == 'c' && "csv"@[1] == 's' && "csv"@[2] == 'v');
    assert("cts"@.len() == 3 && "cts"@[0] == 'c' && "cts"@[1] == 't' && "cts"@[2] == 's');
    assert("cu"@.len() == 2 && "cu"@[0] == 'c' && "cu"@[1] == 'u');
    assert("cuh"@.len() == 3 && "cuh"@[0] == 'c' && "cuh"@[1] == 'u' && "cuh"@[2] == 'h');
    assert("cxx"@.len() == 3 && "cxx"@[0] == 'c' && "cxx"@[1] == 'x' && "cxx"@[2] == 'x');
    assert("dart"@.len() == 4 && "dart"@[0] == 'd' && "dart"@[1] == 'a' && "dart"@[2] == 'r' && "dart"@[3] == 't');
    assert("db"@.len() == 2 && "db"@[0] == 'd' && "db"@[1] == 'b');
    assert("deb"@.len() == 3 && "deb"@[0] == 'd' && "deb"@[1] == 'e' && "deb"@[2] == 'b');
    assert("dll"@.len() == 3 && "dll"@[0] == 'd' && "dll"@[1] == 'l' && "dll"@[2] == 'l');
    assert("doc"@.len() == 3 && "doc"@[0] == 'd' && "doc"@[1] == 'o' && "doc"@[2] == 'c');
    assert("dockerfile"@.len() == 10 && "dockerfile"@[0] == 'd' && "dockerfile"@[1] == 'o' && "dockerfile"@[2] == 'c' && "dockerfile"@[3] == 'k' && "dockerfile"@[4] == 'e' && "dockerfile"@[5] == 'r' && "dockerfile"@[6] == 'f' && "dockerfile"@[7] == 'i' && "dockerfile"@[8] == 'l' && "dockerfile"@[9] == 'e');
    assert("docx"@.len() == 4 && "docx"@[0] == 'd' && "docx"@[1] == 'o' && "docx"@[2] == 'c' && "docx"@[3] == 'x');
    assert("dylib"@.len() == 5 && "dylib"@[0] == 'd' && "dylib"@[1] == 'y' && "dylib"@[2] == 'l' && "dylib"@[3] == 'i' && "dylib"@[4] == 'b');
    assert("erb"@.len() == 3 && "erb"@[0] == 'e' && "erb"@[1] == 'r' && "erb"@[2] == 'b');
    assert("exe"@.len() == 3 && "exe"@[0] == 'e' && "exe"@[1] == 'x' && "exe"@[2] == 'e');
    assert("fish"@.len() == 4 && "fish"@[0] == 'f' && "fish"@[1] == 'i' && "fish"@[2] == 's' && "fish"@[3] == 'h');
    assert("flac"@.len() == 4 && "flac"@[0] == 'f' && "flac"@[1] == 'l' && "flac"@[2] == 'a' && "flac"@[3] == 'c');
    assert("gemspec"@.len() == 7 && "gemspec"@[0] == 'g' && "gemspec"@[1] == 'e' && "gemspec"@[2] == 'm' && "gemspec"@[3] == 's' && "gemspec"@[4] == 'p' && "gemspec"@[5] == 'e' && "gemspec"@[6] == 'c');
    assert("gif"@.len() == 3 && "gif"@[0] == 'g' && "gif"@[1] == 'i' && "gif"@[2] == 'f');
    assert("gitattributes"@.len() == 13 && "gitattributes"@[0] == 'g' && "gitattributes"@[1] == 'i' && "gitattributes"@[2] == 't' && "gitattributes"@[3] == 'a' && "gitattributes"@[4] == 't' && "gitattributes"@[5] == 't' && "gitattributes"@[6] == 'r' && "gitattributes"@[7] == 'i' && "gitattributes"@[8] == 'b' && "gitattributes"@[9] == 'u' && "gitattributes"@[10] == 't' && "gitattributes"@[11] == 'e' && "gitattributes"@[12] == 's');
    assert("gitignore"@.len() == 9 && "gitignore"@[0] == 'g' && "gitignore"@[1] == 'i' && "gitignore"@[2] == 't' && "gitignore"@[3] == 'i' && "gitignore"@[4] == 'g' && "gitignore"@[5] == 'n' && "gitignore"@[6] == 'o' && "gitignore"@[7] == 'r' && "gitignore"@[8] == 'e');
    assert("gitmodules"@.len() == 10 && "gitmodules"@[0] == 'g' && "gitmodules"@[1] == 'i' && "gitmodules"@[2] == 't' && "gitmodules"@[3] == 'm' && "gitmodules"@[4] == 'o' && "gitmodules"@[5] == 'd' && "gitmodules"@[6] == 'u' && "gitmodules"@[7] == 'l' && "gitmodules"@[8] == 'e' && "gitmodules"@[9] == 's');
    assert("go"@.len() == 2 && "go"@[0] == 'g' && "go"@[1] == 'o');
    assert("gz"@.len() == 2 && "gz"@[0] == 'g' && "gz"@[1] == 'z');
    assert("h"@.len() == 1 && "h"@[0] == 'h');
    assert("heic"@.len() == 4 && "heic"@[0] == 'h' && "heic"@[1] == 'e' && "heic"@[2] == 'i' && "heic"@[3] == 'c');
    assert("hpp"@.len() == 3 && "hpp"@[0] == 'h' && "hpp"@[1] == 'p' && "hpp"@[2] == 'p');
    assert("htm"@.len() == 3 && "htm"@[0] == 'h' && "htm"@[1] == 't' && "htm"@[2] == 'm');
    assert("html"@.len() == 4 && "html"@[0] == 'h' && "html"@[1] == 't' && "html"@[2] == 'm' && "html"@[3] == 'l');
    assert("ico"@.len() == 3 && "ico"@[0] == 'i' && "ico"@[1] == 'c' && "ico"@[2] == 'o');
    assert("ini"@.len() == 3 && "ini"@[0] == 'i' && "ini"@[1] == 'n' && "ini"@[2] == 'i');
    assert("jar"@.len() == 3 && "jar"@[0] == 'j' && "jar"@[1] == 'a' && "jar"@[2] == 'r');
    assert("java"@.len() == 4 && "java"@[0] == 'j' && "java"@[1] == 'a' && "java"@[2] == 'v' && "java"@[3] == 'a');
    assert("jpeg"@.len() == 4 && "jpeg"@[0] == 'j' && "jpeg"@[1] == 'p' && "jpeg"@[2] == 'e' && "jpeg"@[3] == 'g');
    assert("jpg"@.len() == 3 && "jpg"@[0] == 'j' && "jpg"@[1] == 'p' && "jpg"@[2] == 'g');
    assert("js"@.len() == 2 && "js"@[0] == 'j' && "js"@[1] == 's');
    assert("json"@.len() == 4 && "json"@[0] == 'j' && "json"@[1] == 's' && "json"@[2] == 'o' && "json"@[3] == 'n');
    assert("jsonl"@.len() == 5 && "jsonl"@[0] == 'j' && "jsonl"@[1] == 's' && "jsonl"@[2] == 'o' && "jsonl"@[3] == 'n' && "jsonl"@[4] == 'l');
    assert("jsx"@.len() == 3 && "jsx"@[0] == 'j' && "jsx"@[1] == 's' && "jsx"@[2] == 'x');
    assert("key"@.len() == 3 && "key"@[0] == 'k' && "key"@[1] == 'e' && "key"@[2] == 'y');
    assert("kt"@.len() == 2 && "kt"@[0] == 'k' && "kt"@[1] == 't');
    assert("kts"@.len() == 3 && "kts"@[0] == 'k' && "kts"@[1] == 't' && "kts"@[2] == 's');
    assert("lock"@.len() == 4 && "lock"@[0] == 'l' && "lock"@[1] == 'o' && "lock"@[2] == 'c' && "lock"@[3] == 'k');
    assert("lua"@.len() == 3 && "lua"@[0] == 'l' && "lua"@[1] == 'u' && "lua"@[2] == 'a');
    assert("m4a"@.len() == 3 && "m4a"@[0] == 'm' && "m4a"@[1] == '4' && "m4a"@[2] == 'a');
    assert("markdown"@.len() == 8 && "markdown"@[0] == 'm' && "markdown"@[1] == 'a' && "markdown"@[2] == 'r' && "markdown"@[3] == 'k' && "markdown"@[4] == 'd' && "markdown"@[5] == 'o' && "markdown"@[6] == 'w' && "markdown"@[7] == 'n');
    assert("md"@.len() == 2 && "md"@[0] == 'm' && "md"@[1] == 'd');
    assert("mdx"@.len() == 3 && "mdx"@[0] == 'm' && "mdx"@[1] == 'd' && "mdx"@[2] == 'x');
    assert("mjs"@.len() == 3 && "mjs"@[0] == 'm' && "mjs"@[1] == 'j' && "mjs"@[2] == 's');
    assert("mkv"@.len() == 3 && "mkv"@[0] == 'm' && "mkv"@[1] == 'k' && "mkv"@[2] == 'v');
    assert("mov"@.len() == 3 && "mov"@[0] == 'm' && "mov"@[1] == 'o' && "mov"@[2] == 'v');
    assert("mp3"@.len() == 3 && "mp3"@[0] == 'm' && "mp3"@[1] == 'p' && "mp3"@[2] == '3');
    assert("mp4"@.len() == 3 && "mp4"@[0] == 'm' && "mp4"@[1] == 'p' && "mp4"@[2] == '4');
    assert("mts"@.len() == 3 && "mts"@[0] == 'm' && "mts"@[1] == 't' && "mts"@[2] == 's');
    assert("o"@.len() == 1 && "o"@[0] == 'o');
    assert("ogg"@.len() == 3 && "ogg"@[0] == 'o' && "ogg"@[1] == 'g' && "ogg"@[2] == 'g');
    assert("onnx"@.len() == 4 && "onnx"@[0] == 'o' && "onnx"@[1] == 'n' && "onnx"@[2] == 'n' && "onnx"@[3] == 'x');
    assert("otf"@.len() == 3 && "otf"@[0] == 'o' && "otf"@[1] == 't' && "otf"@[2] == 'f');
    assert("pb"@.len() == 2 && "pb"@[0] == 'p' && "pb"@[1] == 'b');
    assert("pdf"@.len() == 3 && "pdf"@[0] == 'p' && "pdf"@[1] == 'd' && "pdf"@[2] == 'f');
    assert("pem"@.len() == 3 && "pem"@[0] == 'p' && "pem"@[1] == 'e' && "pem"@[2] == 'm');
    assert("php"@.len() == 3 && "php"@[0] == 'p' && "php"@[1] == 'h' && "php"@[2] == 'p');
    assert("plist"@.len() == 5 && "plist"@[0] == 'p' && "plist"@[1] == 'l' && "plist"@[2] == 'i' && "plist"@[3] == 's' && "plist"@[4] == 't');
    assert("png"@.len() == 3 && "png"@[0] == 'p' && "png"@[1] == 'n' && "png"@[2] == 'g');
    assert("proto"@.len() == 5 && "proto"@[0] == 'p' && "proto"@[1] == 'r' && "proto"@[2] == 'o' && "proto"@[3] == 't' && "proto"@[4] == 'o');
    assert("pt"@.len() == 2 && "pt"@[0] == 'p' && "pt"@[1] == 't');
    assert("pth"@.len() == 3 && "pth"@[0] == 'p' && "pth"@[1] == 't' && "pth"@[2] == 'h');
    assert("pxd"@.len() == 3 && "pxd"@[0] == 'p' && "pxd"@[1] == 'x' && "pxd"@[2] == 'd');
    assert("py"@.len() == 2 && "py"@[0] == 'p' && "py"@[1] == 'y');
    assert("pyc"@.len() == 3 && "pyc"@[0] == 'p' && "pyc"@[1] == 'y' && "pyc"@[2] == 'c');
    assert("pyi"@.len() == 3 && "pyi"@[0] == 'p' && "pyi"@[1] == 'y' && "pyi"@[2] == 'i');
    assert("pyx"@.len() == 3 && "pyx"@[0] == 'p' && "pyx"@[1] == 'y' && "pyx"@[2] == 'x');
    assert("rake"@.len() == 4 && "rake"@[0] == 'r' && "rake"@[1] == 'a' && "rake"@[2] == 'k' && "rake"@[3] == 'e');
    assert("rar"@.len() == 3 && "rar"@[0] == 'r' && "rar"@[1] == 'a' && "rar"@[2] == 'r');
    assert("rb"@.len() == 2 && "rb"@[0] == 'r' && "rb"@[1] == 'b');
    assert("rbi"@.len() == 3 && "rbi"@[0] == 'r' && "rbi"@[1] == 'b' && "rbi"@[2] == 'i');
    assert("rbs"@.len() == 3 && "rbs"@[0] == 'r' && "rbs"@[1] == 'b' && "rbs"@[2] == 's');
    assert("rlib"@.len() == 4 && "rlib"@[0] == 'r' && "rlib"@[1] == 'l' && "rlib"@[2] == 'i' && "rlib"@[3] == 'b');
    assert("rmeta"@.len() == 5 && "rmeta"@[0] == 'r' && "rmeta"@[1] == 'm' && "rmeta"@[2] == 'e' && "rmeta"@[3] == 't' && "rmeta"@[4] == 'a');
    assert("rpm"@.len() == 3 && "rpm"@[0] == 'r' && "rpm"@[1] == 'p' && "rpm"@[2] == 'm');
    assert("rs"@.len() == 2 && "rs"@[0] == 'r' && "rs"@[1] == 's');
    assert("safetensors"@.len() == 11 && "safetensors"@[0] == 's' && "safetensors"@[1] == 'a' && "safetensors"@[2] == 'f' && "safetensors"@[3] == 'e' && "safetensors"@[4] == 't' && "safetensors"@[5] == 'e' && "safetensors"@[6] == 'n' && "safetensors"@[7] == 's' && "safetensors"@[8] == 'o' && "safetensors"@[9] == 'r' && "safetensors"@[10] == 's');
    assert("sass"@.len() == 4 && "sass"@[0] == 's' && "sass"@[1] == 'a' && "sass"@[2] == 's' && "sass"@[3] == 's');
    assert("scss"@.len() == 4 && "scss"@[0] == 's' && "scss"@[1] == 'c' && "scss"@[2] == 's' && "scss"@[3] == 's');
    assert("sh"@.len() == 2 && "sh"@[0] == 's' && "sh"@[1] == 'h');
    assert("so"@.len() == 2 && "so"@[0] == 's' && "so"@[1] == 'o');
    assert("sql"@.len() == 3 && "sql"@[0] == 's' && "sql"@[1] == 'q' && "sql"@[2] == 'l');
    assert("sqlite"@.len() == 6 && "sqlite"@[0] == 's' && "sqlite"@[1] == 'q' && "sqlite"@[2] == 'l' && "sqlite"@[3] == 'i' && "sqlite"@[4] == 't' && "sqlite"@[5] == 'e');
    assert("sqlite3"@.len() == 7 && "sqlite3"@[0] == 's' && "sqlite3"@[1] == 'q' && "sqlite3"@[2] == 'l' && "sqlite3"@[3] == 'i' && "sqlite3"@[4] == 't' && "sqlite3"@[5] == 'e' && "sqlite3"@[6] == '3');
    assert("svelte"@.len() == 6 && "svelte"@[0] == 's' && "svelte"@[1] == 'v' && "svelte"@[2] == 'e' && "svelte"@[3] == 'l' && "svelte"@[4] == 't' && "svelte"@[5] == 'e');
    assert("svg"@.len() == 3 && "svg"@[0] == 's' && "svg"@[1] == 'v' && "svg"@[2] == 'g');
    assert("swift"@.len() == 5 && "swift"@[0] == 's' && "swift"@[1] == 'w' && "swift"@[2] == 'i' && "swift"@[3] == 'f' && "swift"@[4] == 't');
    assert("tar"@.len() == 3 && "tar"@[0] == 't' && "tar"@[1] == 'a' && "tar"@[2] == 'r');
    assert("tf"@.len() == 2 && "tf"@[0] == 't' && "tf"@[1] == 'f');
    assert("tfvars"@.len() == 6 && "tfvars"@[0] == 't' && "tfvars"@[1] == 'f' && "tfvars"@[2] == 'v' && "tfvars"@[3] == 'a' && "tfvars"@[4] == 'r' && "tfvars"@[5] == 's');
    assert("tgz"@.len() == 3 && "tgz"@[0] == 't' && "tgz"@[1] == 'g' && "tgz"@[2] == 'z');
    assert("toml"@.len() == 4 && "toml"@[0] == 't' && "toml"@[1] == 'o' && "toml"@[2] == 'm' && "toml"@[3] == 'l');
    assert("ts"@.len() == 2 && "ts"@[0] == 't' && "ts"@[1] == 's');
    assert("tsx"@.len() == 3 && "tsx"@[0] == 't' && "tsx"@[1] == 's' && "tsx"@[2] == 'x');
    assert("ttf"@.len() == 3 && "ttf"@[0] == 't' && "ttf"@[1] == 't' && "ttf"@[2] == 'f');
    assert("txt"@.len() == 3 && "txt"@[0] == 't' && "txt"@[1] == 'x' && "txt"@[2] == 't');
    assert("vue"@.len() == 3 && "vue"@[0] == 'v' && "vue"@[1] == 'u' && "vue"@[2] == 'e');
    assert("wasm"@.len() == 4 && "wasm"@[0] == 'w' && "wasm"@[1] == 'a' && "wasm"@[2] == 's' && "wasm"@[3] == 'm');
    assert("wat"@.len() == 3 && "wat"@[0] == 'w' && "wat"@[1] == 'a' && "wat"@[2] == 't');
    assert("wav"@.len() == 3 && "wav"@[0] == 'w' && "wav"@[1] == 'a' && "wav"@[2] == 'v');
    assert("webm"@.len() == 4 && "webm"@[0] == 'w' && "webm"@[1] == 'e' && "webm"@[2] == 'b' && "webm"@[3] == 'm');
    assert("webp"@.len() == 4 && "webp"@[0] == 'w' && "webp"@[1] == 'e' && "webp"@[2] == 'b' && "webp"@[3] == 'p');
    assert("woff"@.len() == 4 && "woff"@[0] == 'w' && "woff"@[1] == 'o' && "woff"@[2] == 'f' && "woff"@[3] == 'f');
    assert("woff2"@.len() == 5 && "woff2"@[0] == 'w' && "woff2"@[1] == 'o' && "woff2"@[2] == 'f' && "woff2"@[3] == 'f' && "woff2"@[4] == '2');
    assert("xls"@.len() == 3 && "xls"@[0] == 'x' && "xls"@[1] == 'l' && "xls"@[2] == 's');
    assert("xlsx"@.len() == 4 && "xlsx"@[0] == 'x' && "xlsx"@[1] == 'l' && "xlsx"@[2] == 's' && "xlsx"@[3] == 'x');
    assert("xml"@.len() == 3 && "xml"@[0] == 'x' && "xml"@[1] == 'm' && "xml"@[2] == 'l');
    assert("xz"@.len() == 2 && "xz"@[0] == 'x' && "xz"@[1] == 'z');
    assert("yaml"@.len() == 4 && "yaml"@[0] == 'y' && "yaml"@[1] == 'a' && "yaml"@[2] == 'm' && "yaml"@[3] == 'l');
    assert("yml"@.len() == 3 && "yml"@[0] == 'y' && "yml"@[1] == 'm' && "yml"@[2] == 'l');
    assert("zip"@.len() == 3 && "zip"@[0] == 'z' && "zip"@[1] == 'i' && "zip"@[2] == 'p');
    assert("zsh"@.len() == 3 && "zsh"@[0] == 'z' && "zsh"@[1] == 's' && "zsh"@[2] == 'h');
    assert(ext_color("exe"@) == Some(LsColor::Rgb(0x00, 0xFF, 0x00)));
    assert(ext_color("bin"@) == Some(LsColor::Rgb(0x00, 0xFF, 0x00)));
    assert(ext_color("sqlite"@) == Some(LsColor::Rgb(0x00, 0x3B, 0x57)));
    assert(ext_color("sqlite3"@) == Some(LsColor::Rgb(0x00, 0x3B, 0x57)));
    assert(ext_color("db"@) == Some(LsColor::Rgb(0x00, 0x3B, 0x57)));
    assert(ext_color("onnx"@) == Some(LsColor::Rgb(0x80, 0x80, 0x80)));
    assert(ext_color("lock"@) == Some(LsColor::Rgb(0x80, 0x80, 0x80)));
    assert(ext_color("pt"@) == Some(LsColor::Rgb(0xEE, 0x4C, 0x2C)));
    assert(ext_color("pth"@) == Some(LsColor::Rgb(0xEE, 0x4C, 0x2C)));
    assert(ext_color("safetensors"@) == Some(LsColor::Rgb(0x00, 0xB4, 0xD8)));
    assert(ext_color("ttf"@) == Some(LsColor::Rgb(0xCC, 0xCC, 0xCC)));
    assert(ext_color("otf"@) == Some(LsColor::Rgb(0xCC, 0xCC, 0xCC)));
    assert(ext_color("woff"@) == Some(LsColor::Rgb(0xCC, 0xCC, 0xCC)));
    assert(ext_color("woff2"@) == Some(LsColor::Rgb(0xCC, 0xCC, 0xCC)));
    assert(ext_color("pem"@) == Some(LsColor::Rgb(0xFF, 0xD7, 0x00)));
    assert(ext_color("crt"@) == Some(LsColor::Rgb(0xFF, 0xD7, 0x00)));
    assert(ext_color("cer"@) == Some(LsColor::Rgb(0xFF, 0xD7, 0x00)));
    assert(ext_color("key"@) == Some(LsColor::Rgb(0xFF, 0xD7, 0x00)));
}

} // verus!
