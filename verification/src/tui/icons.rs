//! Nerd Font icons for file entries.
//!
//! Special file names are looked up first, then extensions; both compare
//! case-insensitively.

use vstd::prelude::*;
use crate::fs::entry::FileEntry;
use crate::text::{path_extension, std_extension, std_lowercase, str_eq, to_lowercase};

verus! {

/// The icon of the first entry of `table` whose key is `key`, if any.
pub open spec fn table_icon(table: Seq<(Seq<char>, Seq<char>)>, key: Seq<char>) -> Option<Seq<char>>
    decreases table.len(),
{
    if table.len() == 0 {
        None
    } else if table[0].0 == key {
        Some(table[0].1)
    } else {
        table_icon(table.skip(1), key)
    }
}

/// Icons of special file names (lower-case).
pub open spec fn filename_icons() -> Seq<(Seq<char>, Seq<char>)> {
    seq![
        ("makefile"@, "\u{e779} "@),
        ("gnumakefile"@, "\u{e779} "@),
        ("dockerfile"@, "\u{f308} "@),
        ("cargo.toml"@, "\u{e7a8} "@),
        ("cargo.lock"@, "\u{e7a8} "@),
        (".gitignore"@, "\u{e702} "@),
        (".gitmodules"@, "\u{e702} "@),
        (".gitattributes"@, "\u{e702} "@),
        ("license"@, "\u{f0219} "@),
        ("license.md"@, "\u{f0219} "@),
        ("license.txt"@, "\u{f0219} "@),
        ("readme.md"@, "\u{e73e} "@),
        ("readme"@, "\u{e73e} "@),
        ("readme.txt"@, "\u{e73e} "@),
        ("package.json"@, "\u{e71e} "@),
        ("package-lock.json"@, "\u{e71e} "@),
        ("tsconfig.json"@, "\u{e628} "@),
        (".env"@, "\u{f462} "@),
        (".env.local"@, "\u{f462} "@),
        (".env.production"@, "\u{f462} "@),
    ]
}

/// Icons of extensions (lower-case).
pub open spec fn extension_icons() -> Seq<(Seq<char>, Seq<char>)> {
    seq![
        ("rs"@, "\u{e7a8} "@),
        ("py"@, "\u{e73c} "@),
        ("pyw"@, "\u{e73c} "@),
        ("pyi"@, "\u{e73c} "@),
        ("js"@, "\u{e74e} "@),
        ("mjs"@, "\u{e74e} "@),
        ("cjs"@, "\u{e74e} "@),
        ("ts"@, "\u{e628} "@),
        ("mts"@, "\u{e628} "@),
        ("cts"@, "\u{e628} "@),
        ("jsx"@, "\u{e7ba} "@),
        ("tsx"@, "\u{e7ba} "@),
        ("go"@, "\u{e724} "@),
        ("java"@, "\u{e738} "@),
        ("jar"@, "\u{e738} "@),
        ("c"@, "\u{e61e} "@),
        ("cpp"@, "\u{e61d} "@),
        ("cc"@, "\u{e61d} "@),
        ("cxx"@, "\u{e61d} "@),
        ("h"@, "\u{e61e} "@),
        ("hpp"@, "\u{e61e} "@),
        ("hxx"@, "\u{e61e} "@),
        ("rb"@, "\u{e791} "@),
        ("erb"@, "\u{e791} "@),
        ("lua"@, "\u{e620} "@),
        ("swift"@, "\u{e755} "@),
        ("kt"@, "\u{e634} "@),
        ("kts"@, "\u{e634} "@),
        ("php"@, "\u{e73d} "@),
        ("r"@, "\u{f25d} "@),
        ("sql"@, "\u{e706} "@),
        ("zig"@, "\u{e6a9} "@),
        ("sh"@, "\u{f489} "@),
        ("bash"@, "\u{f489} "@),
        ("zsh"@, "\u{f489} "@),
        ("fish"@, "\u{f489} "@),
        ("vim"@, "\u{e62b} "@),
        ("vimrc"@, "\u{e62b} "@),
        ("toml"@, "\u{e615} "@),
        ("yaml"@, "\u{e6a8} "@),
        ("yml"@, "\u{e6a8} "@),
        ("ini"@, "\u{e615} "@),
        ("cfg"@, "\u{e615} "@),
        ("conf"@, "\u{e615} "@),
        ("html"@, "\u{e736} "@),
        ("htm"@, "\u{e736} "@),
        ("css"@, "\u{e749} "@),
        ("scss"@, "\u{e749} "@),
        ("sass"@, "\u{e749} "@),
        ("less"@, "\u{e749} "@),
        ("svg"@, "\u{e7c5} "@),
        ("vue"@, "\u{e6a0} "@),
        ("json"@, "\u{e60b} "@),
        ("jsonc"@, "\u{e60b} "@),
        ("json5"@, "\u{e60b} "@),
        ("xml"@, "\u{e619} "@),
        ("xsl"@, "\u{e619} "@),
        ("xslt"@, "\u{e619} "@),
        ("md"@, "\u{e73e} "@),
        ("markdown"@, "\u{e73e} "@),
        ("mdx"@, "\u{e73e} "@),
        ("txt"@, "\u{f15c} "@),
        ("text"@, "\u{f15c} "@),
        ("pdf"@, "\u{f1c1} "@),
        ("csv"@, "\u{f1c3} "@),
        ("doc"@, "\u{f1c2} "@),
        ("docx"@, "\u{f1c2} "@),
        ("xls"@, "\u{f1c3} "@),
        ("xlsx"@, "\u{f1c3} "@),
        ("ppt"@, "\u{f1c4} "@),
        ("pptx"@, "\u{f1c4} "@),
        ("zip"@, "\u{f410} "@),
        ("tar"@, "\u{f410} "@),
        ("gz"@, "\u{f410} "@),
        ("bz2"@, "\u{f410} "@),
        ("xz"@, "\u{f410} "@),
        ("7z"@, "\u{f410} "@),
        ("rar"@, "\u{f410} "@),
        ("png"@, "\u{f1c5} "@),
        ("jpg"@, "\u{f1c5} "@),
        ("jpeg"@, "\u{f1c5} "@),
        ("gif"@, "\u{f1c5} "@),
        ("bmp"@, "\u{f1c5} "@),
        ("webp"@, "\u{f1c5} "@),
        ("ico"@, "\u{f1c5} "@),
        ("tiff"@, "\u{f1c5} "@),
        ("tif"@, "\u{f1c5} "@),
        ("mp3"@, "\u{f001} "@),
        ("wav"@, "\u{f001} "@),
        ("flac"@, "\u{f001} "@),
        ("ogg"@, "\u{f001} "@),
        ("aac"@, "\u{f001} "@),
        ("m4a"@, "\u{f001} "@),
        ("mp4"@, "\u{f03d} "@),
        ("avi"@, "\u{f03d} "@),
        ("mkv"@, "\u{f03d} "@),
        ("mov"@, "\u{f03d} "@),
        ("wmv"@, "\u{f03d} "@),
        ("flv"@, "\u{f03d} "@),
        ("webm"@, "\u{f03d} "@),
        ("lock"@, "\u{f023} "@),
        ("log"@, "\u{f18d} "@),
        ("gitignore"@, "\u{e702} "@),
        ("env"@, "\u{f462} "@),
    ]
}

/// The folder icon.
pub open spec fn folder_icon() -> Seq<char> {
    "\u{f07b} "@
}

/// The icon of files that nothing else matches.
pub open spec fn default_icon() -> Seq<char> {
    "\u{f15b} "@
}

/// The icon of an entry: directories get the folder icon; otherwise the
/// lower-cased name is looked up among special names, then the lower-cased
/// extension (none counts as empty) among extensions.
pub open spec fn entry_icon(is_dir: bool, name: Seq<char>, path: Seq<char>) -> Seq<char> {
    if is_dir {
        folder_icon()
    } else {
        match table_icon(filename_icons(), std_lowercase(name)) {
            Some(icon) => icon,
            None => {
                let ext = match std_extension(path) {
                    Some(e) => e,
                    None => Seq::empty(),
                };
                match table_icon(extension_icons(), std_lowercase(ext)) {
                    Some(icon) => icon,
                    None => default_icon(),
                }
            },
        }
    }
}

/// Looks `key` up in `table`.
fn lookup(table: &[(&'static str, &'static str)], key: &str) -> (r: Option<&'static str>)
    ensures
        r matches Some(i) ==> table_icon(table@.map_values(|p: (&str, &str)| (p.0@, p.1@)), key@) == Some(i@),
        r is None <==> table_icon(table@.map_values(|p: (&str, &str)| (p.0@, p.1@)), key@) is None,
{
    let ghost tv = table@.map_values(|p: (&str, &str)| (p.0@, p.1@));
    let mut i: usize = 0;
    proof {
        assert(tv.skip(0) =~= tv);
    }
    while i < table.len()
        invariant
            i <= table@.len(),
            tv == table@.map_values(|p: (&str, &str)| (p.0@, p.1@)),
            table_icon(tv, key@) == table_icon(tv.skip(i as int), key@),
        decreases table.len() - i,
    {
        proof {
            assert(tv.skip(i as int)[0] == tv[i as int]);
            assert(tv.skip(i as int).skip(1) =~= tv.skip(i + 1));
        }
        if str_eq(table[i].0, key) {
            return Some(table[i].1);
        }
        i = i + 1;
    }
    proof {
        assert(tv.skip(i as int).len() == 0);
    }
    None
}

/// The icon of a special file name (compared in lower case), if it has one.
pub fn icon_for_filename(name: &str) -> (r: Option<&'static str>)
    ensures
        r is None <==> table_icon(filename_icons(), std_lowercase(name@)) is None,
        r matches Some(i) ==> table_icon(filename_icons(), std_lowercase(name@)) == Some(i@),
{
    let names: [(&'static str, &'static str); 20] = [("makefile", "\u{e779} "), ("gnumakefile", "\u{e779} "), ("dockerfile", "\u{f308} "), ("cargo.toml", "\u{e7a8} "), ("cargo.lock", "\u{e7a8} "), (".gitignore", "\u{e702} "), (".gitmodules", "\u{e702} "), (".gitattributes", "\u{e702} "), ("license", "\u{f0219} "), ("license.md", "\u{f0219} "), ("license.txt", "\u{f0219} "), ("readme.md", "\u{e73e} "), ("readme", "\u{e73e} "), ("readme.txt", "\u{e73e} "), ("package.json", "\u{e71e} "), ("package-lock.json", "\u{e71e} "), ("tsconfig.json", "\u{e628} "), (".env", "\u{f462} "), (".env.local", "\u{f462} "), (".env.production", "\u{f462} ")];
    let lname = to_lowercase(name);
    proof {
        assert(names@.map_values(|p: (&str, &str)| (p.0@, p.1@)) =~= filename_icons());
    }
    lookup(names.as_slice(), lname.as_str())
}

/// The icon of a file extension (compared in lower case); files with an
/// unknown extension get the plain file icon.
pub fn icon_for_extension(ext: &str) -> (r: &'static str)
    ensures
        r@ == match table_icon(extension_icons(), std_lowercase(ext@)) {
            Some(icon) => icon,
            None => default_icon(),
        },
{
    let lext = to_lowercase(ext);
    let exts: [(&'static str, &'static str); 104] = [("rs", "\u{e7a8} "), ("py", "\u{e73c} "), ("pyw", "\u{e73c} "), ("pyi", "\u{e73c} "), ("js", "\u{e74e} "), ("mjs", "\u{e74e} "), ("cjs", "\u{e74e} "), ("ts", "\u{e628} "), ("mts", "\u{e628} "), ("cts", "\u{e628} "), ("jsx", "\u{e7ba} "), ("tsx", "\u{e7ba} "), ("go", "\u{e724} "), ("java", "\u{e738} "), ("jar", "\u{e738} "), ("c", "\u{e61e} "), ("cpp", "\u{e61d} "), ("cc", "\u{e61d} "), ("cxx", "\u{e61d} "), ("h", "\u{e61e} "), ("hpp", "\u{e61e} "), ("hxx", "\u{e61e} "), ("rb", "\u{e791} "), ("erb", "\u{e791} "), ("lua", "\u{e620} "), ("swift", "\u{e755} "), ("kt", "\u{e634} "), ("kts", "\u{e634} "), ("php", "\u{e73d} "), ("r", "\u{f25d} "), ("sql", "\u{e706} "), ("zig", "\u{e6a9} "), ("sh", "\u{f489} "), ("bash", "\u{f489} "), ("zsh", "\u{f489} "), ("fish", "\u{f489} "), ("vim", "\u{e62b} "), ("vimrc", "\u{e62b} "), ("toml", "\u{e615} "), ("yaml", "\u{e6a8} "), ("yml", "\u{e6a8} "), ("ini", "\u{e615} "), ("cfg", "\u{e615} "), ("conf", "\u{e615} "), ("html", "\u{e736} "), ("htm", "\u{e736} "), ("css", "\u{e749} "), ("scss", "\u{e749} "), ("sass", "\u{e749} "), ("less", "\u{e749} "), ("svg", "\u{e7c5} "), ("vue", "\u{e6a0} "), ("json", "\u{e60b} "), ("jsonc", "\u{e60b} "), ("json5", "\u{e60b} "), ("xml", "\u{e619} "), ("xsl", "\u{e619} "), ("xslt", "\u{e619} "), ("md", "\u{e73e} "), ("markdown", "\u{e73e} "), ("mdx", "\u{e73e} "), ("txt", "\u{f15c} "), ("text", "\u{f15c} "), ("pdf", "\u{f1c1} "), ("csv", "\u{f1c3} "), ("doc", "\u{f1c2} "), ("docx", "\u{f1c2} "), ("xls", "\u{f1c3} "), ("xlsx", "\u{f1c3} "), ("ppt", "\u{f1c4} "), ("pptx", "\u{f1c4} "), ("zip", "\u{f410} "), ("tar", "\u{f410} "), ("gz", "\u{f410} "), ("bz2", "\u{f410} "), ("xz", "\u{f410} "), ("7z", "\u{f410} "), ("rar", "\u{f410} "), ("png", "\u{f1c5} "), ("jpg", "\u{f1c5} "), ("jpeg", "\u{f1c5} "), ("gif", "\u{f1c5} "), ("bmp", "\u{f1c5} "), ("webp", "\u{f1c5} "), ("ico", "\u{f1c5} "), ("tiff", "\u{f1c5} "), ("tif", "\u{f1c5} "), ("mp3", "\u{f001} "), ("wav", "\u{f001} "), ("flac", "\u{f001} "), ("ogg", "\u{f001} "), ("aac", "\u{f001} "), ("m4a", "\u{f001} "), ("mp4", "\u{f03d} "), ("avi", "\u{f03d} "), ("mkv", "\u{f03d} "), ("mov", "\u{f03d} "), ("wmv", "\u{f03d} "), ("flv", "\u{f03d} "), ("webm", "\u{f03d} "), ("lock", "\u{f023} "), ("log", "\u{f18d} "), ("gitignore", "\u{e702} "), ("env", "\u{f462} ")];
    proof {
        assert(exts@.map_values(|p: (&str, &str)| (p.0@, p.1@)) =~= extension_icons());
    }
    match lookup(exts.as_slice(), lext.as_str()) {
        Some(icon) => icon,
        None => "\u{f15b} ",
    }
}

/// Returns a Nerd Font icon for the given file entry.
pub fn icon_for_entry(entry: &FileEntry) -> (r: &'static str)
    ensures
        r@ == entry_icon(entry@.is_dir, entry@.name, entry@.path),
{
    if entry.is_dir() {
        return "\u{f07b} ";
    }
    if let Some(icon) = icon_for_filename(entry.name()) {
        return icon;
    }
    let ext = match path_extension(entry.path()) {
        Some(e) => e,
        None => String::new(),
    };
    icon_for_extension(ext.as_str())
}

} // verus!
