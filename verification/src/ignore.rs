//! Ignore markers: literal substrings that exclude any path containing them.
//!
//! Matching is plain substring containment on the whole path, not equality
//! with one of its segments: the marker `build` also excludes `subbuild`.

use vstd::prelude::*;
use vstd::std_specs::iter::IteratorSpec;

verus! {

/// Whether `needle` stands in `hay` at position `i`.
pub open spec fn occurs_at(hay: Seq<char>, needle: Seq<char>, i: int) -> bool {
    &&& 0 <= i
    &&& i + needle.len() <= hay.len()
    &&& hay.subrange(i, i + needle.len()) == needle
}

/// Whether `needle` is a substring of `hay`.
pub open spec fn contains(hay: Seq<char>, needle: Seq<char>) -> bool {
    exists|i: int| occurs_at(hay, needle, i)
}

/// Whether any of `markers` is a substring of `path`.
pub open spec fn contains_any(path: Seq<char>, markers: Seq<Seq<char>>) -> bool {
    exists|k: int| 0 <= k < markers.len() && contains(path, #[trigger] markers[k])
}

/// The characters of each marker, in the order of the list.
pub open spec fn marker_texts(markers: Seq<Vec<char>>) -> Seq<Seq<char>> {
    Seq::new(markers.len(), |k: int| markers[k]@)
}

/// The characters of each string, in the order of the list.
pub open spec fn texts_of(names: Seq<&str>) -> Seq<Seq<char>> {
    Seq::new(names.len(), |k: int| names[k]@)
}

/// The Unicode scalar values of `s`, one by one.
pub fn chars_of(s: &str) -> (v: Vec<char>)
    ensures
        v@ == s@,
{
    let mut it = s.chars();
    let mut v: Vec<char> = Vec::new();
    loop
        invariant
            v@ + it.remaining() == s@,
        ensures
            v@ == s@,
        decreases s@.len() - v@.len(),
    {
        match it.next() {
            Some(c) => {
                proof {
                    assert(v@.push(c) + it.remaining() == s@);
                }
                v.push(c);
            },
            None => {
                assert(v@ == s@);
                break;
            },
        }
    }
    v
}

/// Compares `needle` with the characters of `hay` that start at `start`.
fn matches_at(hay: &Vec<char>, needle: &Vec<char>, start: usize) -> (r: bool)
    requires
        start + needle@.len() <= hay@.len(),
    ensures
        r == occurs_at(hay@, needle@, start as int),
{
    let length: usize = hay.len();
    let mut j: usize = 0;
    while j < needle.len()
        invariant
            length == hay@.len(),
            j <= needle@.len(),
            start + needle@.len() <= hay@.len(),
            forall|k: int| 0 <= k < j ==> hay@[start + k] == needle@[k],
        decreases needle@.len() - j,
    {
        if hay[start + j] != needle[j] {
            proof {
                let window = hay@.subrange(start as int, start + needle@.len());
                assert(window[j as int] == hay@[start + j]);
            }
            return false;
        }
        j = j + 1;
    }
    proof {
        assert(hay@.subrange(start as int, start + needle@.len()) =~= needle@);
    }
    true
}

/// Searches `hay` for `needle`, position by position.
pub fn contains_chars(hay: &Vec<char>, needle: &Vec<char>) -> (r: bool)
    ensures
        r == contains(hay@, needle@),
{
    if needle.len() > hay.len() {
        return false;
    }
    let last: usize = hay.len() - needle.len();
    let mut i: usize = 0;
    loop
        invariant
            last == hay@.len() - needle@.len(),
            i <= last,
            forall|k: int| 0 <= k < i ==> !occurs_at(hay@, needle@, k),
        decreases last - i,
    {
        if matches_at(hay, needle, i) {
            return true;
        }
        if i == last {
            return false;
        }
        i = i + 1;
    }
}

/// Whether one of `markers` is a substring of `path`.
fn any_marker_in(path: &Vec<char>, markers: &Vec<Vec<char>>) -> (r: bool)
    ensures
        r == contains_any(path@, marker_texts(markers@)),
{
    let mut k: usize = 0;
    while k < markers.len()
        invariant
            k <= markers@.len(),
            forall|j: int| 0 <= j < k ==> !contains(path@, #[trigger] marker_texts(markers@)[j]),
        decreases markers@.len() - k,
    {
        if contains_chars(path, &markers[k]) {
            proof {
                assert(marker_texts(markers@)[k as int] == markers@[k as int]@);
            }
            return true;
        }
        k = k + 1;
    }
    false
}

/// Turns a list of strings into markers.
fn markers_from(names: &[&str]) -> (v: Vec<Vec<char>>)
    ensures
        marker_texts(v@) == texts_of(names@),
{
    let mut v: Vec<Vec<char>> = Vec::new();
    let mut k: usize = 0;
    while k < names.len()
        invariant
            k <= names@.len(),
            v@.len() == k,
            forall|j: int| 0 <= j < k ==> (#[trigger] v@[j])@ == names@[j]@,
        decreases names@.len() - k,
    {
        v.push(chars_of(names[k]));
        k = k + 1;
    }
    proof {
        assert(marker_texts(v@) =~= texts_of(names@));
    }
    v
}

/// The folder markers of the standard set: build output, version control,
/// dependency and framework cache directories, and asset directories.
pub open spec fn standard_folders() -> Seq<Seq<char>> {
    seq![
        ".vscode"@,
        "misc"@,
        "assets"@,
        "android"@,
        ".turbo"@,
        "dist"@,
        "target"@,
        ".yarn"@,
        "build"@,
        ".git"@,
        "svg"@,
        "icons"@,
        "node_modules"@,
        ".svelte-kit"@,
        ".next"@,
        ".solid"@,
        ".nuxt"@,
        "pocketbase"@,
        "images"@,
        "fonts"@,
        "platforms"@,
        "App_Resources"@,
        "static"@,
    ]
}

/// The file markers of the standard set: lockfiles, package files, dotfiles and
/// generated configuration.
pub open spec fn standard_files() -> Seq<Seq<char>> {
    seq![
        ".env"@,
        "ignore.json"@,
        ".yarnrc.yml"@,
        ".prettierignore"@,
        "app.d.ts"@,
        "todo.txt"@,
        "_path.txt"@,
        ".eslint.cjs"@,
        ".prettierrc"@,
        "count.py"@,
        ".gitignore"@,
        "package-lock.json"@,
        "Cargo.lock"@,
        "Cargo.toml"@,
        "yarn.lock"@,
        "pnpm-lock.yaml"@,
        "package.json"@,
        "tsconfig.json"@,
        ".npmrc"@,
        "global.d.ts"@,
        "svelte.config.js"@,
        "tailwind.config.cjs"@,
        "postcss.config.cjs"@,
        "vite.config.ts"@,
        "stats.html"@,
        ".eslintcache"@,
        "README.md"@,
        "TODO.md"@,
        ".eslintrc.cjs"@,
        ".deepsource.toml"@,
    ]
}

/// The two lists of markers, fixed for a run.
pub struct IgnoreSet {
    pub folders: Vec<Vec<char>>,
    pub files: Vec<Vec<char>>,
}

impl IgnoreSet {
    /// The markers that exclude a directory and all beneath it.
    pub open spec fn folder_markers(&self) -> Seq<Seq<char>> {
        marker_texts(self.folders@)
    }

    /// The markers that exclude a file.
    pub open spec fn file_markers(&self) -> Seq<Seq<char>> {
        marker_texts(self.files@)
    }

    /// Whether a directory at `path` is left out.
    pub open spec fn excludes_folder(&self, path: Seq<char>) -> bool {
        contains_any(path, self.folder_markers())
    }

    /// Whether a file at `path` is left out.
    pub open spec fn excludes_file(&self, path: Seq<char>) -> bool {
        contains_any(path, self.file_markers())
    }

    /// An ignore set with the given markers.
    pub fn new(folders: &[&str], files: &[&str]) -> (r: IgnoreSet)
        ensures
            r.folder_markers() == texts_of(folders@),
            r.file_markers() == texts_of(files@),
    {
        IgnoreSet { folders: markers_from(folders), files: markers_from(files) }
    }

    /// The standard ignore set.
    pub fn standard() -> (r: IgnoreSet)
        ensures
            r.folder_markers() == standard_folders(),
            r.file_markers() == standard_files(),
    {
        let folders: Vec<&str> = vec![
            ".vscode",
            "misc",
            "assets",
            "android",
            ".turbo",
            "dist",
            "target",
            ".yarn",
            "build",
            ".git",
            "svg",
            "icons",
            "node_modules",
            ".svelte-kit",
            ".next",
            ".solid",
            ".nuxt",
            "pocketbase",
            "images",
            "fonts",
            "platforms",
            "App_Resources",
            "static",
        ];
        let files: Vec<&str> = vec![
            ".env",
            "ignore.json",
            ".yarnrc.yml",
            ".prettierignore",
            "app.d.ts",
            "todo.txt",
            "_path.txt",
            ".eslint.cjs",
            ".prettierrc",
            "count.py",
            ".gitignore",
            "package-lock.json",
            "Cargo.lock",
            "Cargo.toml",
            "yarn.lock",
            "pnpm-lock.yaml",
            "package.json",
            "tsconfig.json",
            ".npmrc",
            "global.d.ts",
            "svelte.config.js",
            "tailwind.config.cjs",
            "postcss.config.cjs",
            "vite.config.ts",
            "stats.html",
            ".eslintcache",
            "README.md",
            "TODO.md",
            ".eslintrc.cjs",
            ".deepsource.toml",
        ];
        proof {
            assert(texts_of(folders@) =~= standard_folders());
            assert(texts_of(files@) =~= standard_files());
        }
        IgnoreSet::new(folders.as_slice(), files.as_slice())
    }

    /// Whether the directory at `path` is left out: some folder marker is a
    /// substring of the path.
    pub fn ignores_folder(&self, path: &str) -> (r: bool)
        ensures
            r == self.excludes_folder(path@),
    {
        let chars = chars_of(path);
        any_marker_in(&chars, &self.folders)
    }

    /// Whether the file at `path` is left out: some file marker is a substring
    /// of the path.
    pub fn ignores_file(&self, path: &str) -> (r: bool)
        ensures
            r == self.excludes_file(path@),
    {
        let chars = chars_of(path);
        any_marker_in(&chars, &self.files)
    }
}

} // verus!
