//! Plugins, their bundles on disk, and the facts read from those bundles.
use vstd::prelude::*;

use crate::paths::{file_extension, file_extension_of, file_stem, file_stem_of};
use crate::text::{
    after_first, ascii_alnum, ascii_lower, before_first, chars_of, find_chars, is_ascii_alnum, sub_chars,
    owned, push_str, string_of, to_ascii_lower, trim, trim_bounds,
};

verus! {

/// `core::slice::from_ref` turns a reference into a slice holding just that value.
pub assume_specification<T>[ core::slice::from_ref::<T> ](s: &T) -> (r: &[T])
    ensures
        r@ == seq![*s],
;

/// The kinds of audio plugin bundles.
#[derive(Clone, Copy, PartialEq, Eq, Structural, Debug)]
pub enum PluginFormat {
    Vst2,
    Vst3,
    AudioUnit,
}

/// Whether a plugin is installed for every user or for the current one.
#[derive(Clone, Copy, PartialEq, Eq, Structural, Debug)]
pub enum PluginScope {
    System,
    User,
}

/// The name shown for a format.
pub open spec fn format_label(f: PluginFormat) -> Seq<char> {
    match f {
        PluginFormat::Vst2 => "VST2"@,
        PluginFormat::Vst3 => "VST3"@,
        PluginFormat::AudioUnit => "AU"@,
    }
}

/// The name shown for a scope.
pub open spec fn scope_label(s: PluginScope) -> Seq<char> {
    match s {
        PluginScope::System => "System"@,
        PluginScope::User => "User"@,
    }
}

/// The file extension that bundles of a format carry.
pub open spec fn bundle_extension(f: PluginFormat) -> Seq<char> {
    match f {
        PluginFormat::Vst2 => "vst"@,
        PluginFormat::Vst3 => "vst3"@,
        PluginFormat::AudioUnit => "component"@,
    }
}

impl PluginFormat {
    /// The name shown for this format: VST2, VST3 or AU.
    pub fn label(&self) -> (s: String)
        ensures
            s@ == format_label(*self),
    {
        match self {
            PluginFormat::Vst2 => owned("VST2"),
            PluginFormat::Vst3 => owned("VST3"),
            PluginFormat::AudioUnit => owned("AU"),
        }
    }

    /// The file extension of bundles of this format.
    pub fn extension(&self) -> (s: String)
        ensures
            s@ == bundle_extension(*self),
    {
        match self {
            PluginFormat::Vst2 => owned("vst"),
            PluginFormat::Vst3 => owned("vst3"),
            PluginFormat::AudioUnit => owned("component"),
        }
    }
}

impl PluginScope {
    /// The name shown for this scope: System or User.
    pub fn label(&self) -> (s: String)
        ensures
            s@ == scope_label(*self),
    {
        match self {
            PluginScope::System => owned("System"),
            PluginScope::User => owned("User"),
        }
    }
}

/// An installed plugin bundle.
pub struct Plugin {
    pub name: String,
    pub family: String,
    pub format: PluginFormat,
    pub scope: PluginScope,
    pub path: String,
    pub version: Option<String>,
    pub modified: Option<u64>,
}

/// A plugin with its texts as character sequences.
pub struct PluginView {
    pub name: Seq<char>,
    pub family: Seq<char>,
    pub format: PluginFormat,
    pub scope: PluginScope,
    pub path: Seq<char>,
    pub version: Option<Seq<char>>,
    pub modified: Option<u64>,
}

/// The characters of an optional string.
pub open spec fn opt_text(o: Option<String>) -> Option<Seq<char>> {
    match o {
        Some(s) => Some(s@),
        None => None,
    }
}

impl View for Plugin {
    type V = PluginView;

    open spec fn view(&self) -> PluginView {
        PluginView {
            name: self.name@,
            family: self.family@,
            format: self.format,
            scope: self.scope,
            path: self.path@,
            version: opt_text(self.version),
            modified: self.modified,
        }
    }
}

/// The title of a plugin: its name, then a space and its version when known.
pub open spec fn title_text(p: PluginView) -> Seq<char> {
    p.name + match p.version {
        Some(v) => seq![' '] + v,
        None => Seq::empty(),
    }
}

/// The one-line summary of a plugin: format, scope and path.
pub open spec fn summary_text(p: PluginView) -> Seq<char> {
    format_label(p.format) + " - "@ + scope_label(p.scope) + " - "@ + p.path
}

/// A copy of an optional string.
pub fn copy_opt(o: &Option<String>) -> (r: Option<String>)
    ensures
        r == *o,
{
    match o {
        Some(s) => Some(s.clone()),
        None => None,
    }
}

impl Clone for Plugin {
    fn clone(&self) -> (r: Self)
        ensures
            r == *self,
    {
        Plugin {
            name: self.name.clone(),
            family: self.family.clone(),
            format: self.format,
            scope: self.scope,
            path: self.path.clone(),
            version: copy_opt(&self.version),
            modified: self.modified,
        }
    }
}

/// A vector holding copies of the plugins of a slice.
pub fn copy_plugins(s: &[Plugin]) -> (r: Vec<Plugin>)
    ensures
        r@ == s@,
{
    let mut r: Vec<Plugin> = Vec::new();
    let mut i: usize = 0;
    while i < s.len()
        invariant
            i <= s@.len(),
            r@ == s@.take(i as int),
        decreases s@.len() - i,
    {
        r.push(s[i].clone());
        assert(s@.take(i + 1) == s@.take(i as int).push(s@[i as int]));
        i += 1;
    }
    assert(s@.take(s@.len() as int) == s@);
    r
}

impl Plugin {
    /// The plugin's name, followed by its version when one is known.
    pub fn title(&self) -> (s: String)
        ensures
            s@ == title_text(self@),
    {
        let mut s = self.name.clone();
        match &self.version {
            Some(v) => {
                s.push(' ');
                push_str(&mut s, v.as_str());
                assert(s@ == self.name@ + (seq![' '] + v@));
            },
            None => {
                assert(s@ == self.name@ + Seq::<char>::empty());
            },
        }
        s
    }

    /// "FORMAT - SCOPE - PATH".
    pub fn summary(&self) -> (s: String)
        ensures
            s@ == summary_text(self@),
    {
        let mut s = self.format.label();
        push_str(&mut s, " - ");
        let scope = self.scope.label();
        push_str(&mut s, scope.as_str());
        push_str(&mut s, " - ");
        push_str(&mut s, self.path.as_str());
        s
    }
}

/// A directory that holds plugin bundles of one format and scope.
pub struct PluginRoot {
    pub path: String,
    pub format: PluginFormat,
    pub scope: PluginScope,
}

impl Clone for PluginRoot {
    fn clone(&self) -> (r: Self)
        ensures
            r == *self,
    {
        PluginRoot { path: self.path.clone(), format: self.format, scope: self.scope }
    }
}

// ---------------------------------------------------------------------------
// Bundles
// ---------------------------------------------------------------------------

/// `a` and `b` are equal once ASCII letters are lower-cased (`str::eq_ignore_ascii_case`).
pub open spec fn same_ignoring_ascii_case(a: Seq<char>, b: Seq<char>) -> bool {
    a.len() == b.len() && forall|i: int| 0 <= i < a.len() ==> ascii_lower(a[i]) == ascii_lower(b[i])
}

/// `path` names a bundle of `format`: its extension is the format's, in any ASCII case.
pub open spec fn is_bundle_path(path: Seq<char>, format: PluginFormat) -> bool {
    match file_extension_of(path) {
        Some(e) => same_ignoring_ascii_case(e, bundle_extension(format)),
        None => false,
    }
}

/// Whether two texts are equal once ASCII letters are lower-cased.
pub fn eq_ignore_ascii_case(a: &str, b: &str) -> (r: bool)
    ensures
        r == same_ignoring_ascii_case(a@, b@),
{
    let x = chars_of(a);
    let y = chars_of(b);
    if x.len() != y.len() {
        return false;
    }
    let mut i: usize = 0;
    while i < x.len()
        invariant
            x@.len() == y@.len(),
            x@ == a@,
            y@ == b@,
            i <= x@.len(),
            forall|k: int| 0 <= k < i ==> ascii_lower(x@[k]) == ascii_lower(y@[k]),
        decreases x@.len() - i,
    {
        if to_ascii_lower(x[i]) != to_ascii_lower(y[i]) {
            assert(ascii_lower(x@[i as int]) != ascii_lower(y@[i as int]));
            return false;
        }
        i += 1;
    }
    true
}

/// Whether `path` has the extension of a bundle of `format`.
pub fn is_plugin_bundle(path: &str, format: PluginFormat) -> (r: bool)
    ensures
        r == is_bundle_path(path@, format),
{
    match file_extension(path) {
        Some(e) => {
            let expected = format.extension();
            eq_ignore_ascii_case(e.as_str(), expected.as_str())
        },
        None => false,
    }
}

/// What the file system showed of a path that may be a bundle.
#[derive(Clone, Copy, PartialEq, Eq, Structural, Debug)]
pub struct BundleProbe {
    /// `None` when the path's metadata could not be read (it is missing or a
    /// broken link); otherwise whether what it leads to is a regular file.
    pub target_is_file: Option<bool>,
    /// Whether `Contents/Info.plist` inside the path is a regular file.
    pub info_plist_is_file: bool,
}

/// A bundle of `format` is installed at `path`: the extension fits, the path
/// leads somewhere, and it is a file or a directory with an `Info.plist`.
pub open spec fn installed_bundle(path: Seq<char>, format: PluginFormat, probe: BundleProbe) -> bool {
    &&& is_bundle_path(path, format)
    &&& match probe.target_is_file {
        Some(is_file) => is_file || probe.info_plist_is_file,
        None => false,
    }
}

/// Whether an installed bundle of `format` is at `path`, given what was seen there.
pub fn is_installed_plugin_bundle(path: &str, format: PluginFormat, probe: &BundleProbe) -> (r: bool)
    ensures
        r == installed_bundle(path@, format, *probe),
{
    if !is_plugin_bundle(path, format) {
        return false;
    }
    match probe.target_is_file {
        Some(is_file) => is_file || probe.info_plist_is_file,
        None => false,
    }
}

/// The name of a plugin at `path`: the stem of its file name, or "Unknown".
pub open spec fn name_for_path(path: Seq<char>) -> Seq<char> {
    match file_stem_of(path) {
        Some(s) => s,
        None => "Unknown"@,
    }
}

/// The plugin name for a bundle path.
pub fn plugin_name(path: &str) -> (r: String)
    ensures
        r@ == name_for_path(path@),
{
    match file_stem(path) {
        Some(s) => s,
        None => owned("Unknown"),
    }
}

/// The family key of a name: its ASCII letters and digits, lower-cased.
pub open spec fn family_of(name: Seq<char>) -> Seq<char> {
    name.filter(|c: char| is_ascii_alnum(c)).map_values(|c: char| ascii_lower(c))
}

/// The family key that groups related versions of a plugin.
pub fn normalize_family(name: &str) -> (r: String)
    ensures
        r@ == family_of(name@),
{
    let chars = chars_of(name);
    let mut out = String::new();
    let mut i: usize = 0;
    while i < chars.len()
        invariant
            i <= chars@.len(),
            chars@ == name@,
            out@ == family_of(chars@.take(i as int)),
        decreases chars@.len() - i,
    {
        let c = chars[i];
        let ghost before = chars@.take(i as int);
        assert(chars@.take(i + 1).drop_last() == before);
        assert(chars@.take(i + 1).last() == c);
        proof {
            before.lemma_filter_push(c, |c: char| is_ascii_alnum(c));
        }
        assert(chars@.take(i + 1) == before.push(c));
        if ascii_alnum(c) {
            out.push(to_ascii_lower(c));
        }
        i += 1;
    }
    assert(chars@.take(chars@.len() as int) == chars@);
    out
}

/// The family key holds only lower-case ASCII letters and digits.
pub proof fn lemma_family_chars(name: Seq<char>)
    ensures
        forall|i: int|
            0 <= i < family_of(name).len() ==> is_ascii_alnum(#[trigger] family_of(name)[i])
                && ascii_lower(family_of(name)[i]) == family_of(name)[i],
{
    let kept = name.filter(|c: char| is_ascii_alnum(c));
    assert forall|i: int| 0 <= i < kept.len() implies is_ascii_alnum(#[trigger] kept[i]) by {
        name.lemma_filter_pred(|c: char| is_ascii_alnum(c), i);
    }
    assert forall|i: int| 0 <= i < family_of(name).len() implies is_ascii_alnum(
        #[trigger] family_of(name)[i],
    ) && ascii_lower(family_of(name)[i]) == family_of(name)[i] by {
        let c = kept[i];
        assert(is_ascii_alnum(c));
        if 'A' <= c && c <= 'Z' {
            assert((c as u32) + 32 <= 'z' as u32) by {
                assert(c as u32 <= 90);
            }
        }
    }
}

/// Normalising a family key again leaves it unchanged.
pub proof fn lemma_family_idempotent(name: Seq<char>)
    ensures
        family_of(family_of(name)) == family_of(name),
{
    let f = family_of(name);
    lemma_family_chars(name);
    let p = |c: char| is_ascii_alnum(c);
    assert(f.filter(p) == f) by {
        lemma_filter_all(f, p);
    }
    assert(f.filter(p).map_values(|c: char| ascii_lower(c)) =~= f);
}

/// Filtering a sequence whose elements all pass leaves it unchanged.
proof fn lemma_filter_all(s: Seq<char>, p: spec_fn(char) -> bool)
    requires
        forall|i: int| 0 <= i < s.len() ==> p(#[trigger] s[i]),
    ensures
        s.filter(p) == s,
    decreases s.len(),
{
    reveal(Seq::filter);
    if s.len() > 0 {
        lemma_filter_all(s.drop_last(), p);
        assert(s.drop_last().push(s.last()) =~= s);
    } else {
        assert(s.filter(p) =~= s);
    }
}

// ---------------------------------------------------------------------------
// Property lists
// ---------------------------------------------------------------------------

/// The text of the first `<string>` that follows `<key>KEY</key>` in a
/// property list, without surrounding white space; absent when any marker is
/// missing or the value is blank.
pub open spec fn plist_value(contents: Seq<char>, key: Seq<char>) -> Option<Seq<char>> {
    let marker = "<key>"@ + key + "</key>"@;
    match after_first(contents, marker) {
        None => None,
        Some(after_key) => match after_first(after_key, "<string>"@) {
            None => None,
            Some(after_open) => match before_first(after_open, "</string>"@) {
                None => None,
                Some(raw) => if trim(raw).len() == 0 {
                    None
                } else {
                    Some(trim(raw))
                },
            },
        },
    }
}

/// The string value stored under `key` in the text of a property list.
pub fn read_plist_string(contents: &str, key: &str) -> (r: Option<String>)
    ensures
        match r {
            Some(v) => plist_value(contents@, key@) == Some(v@),
            None => plist_value(contents@, key@) is None,
        },
{
    let mut marker = owned("<key>");
    push_str(&mut marker, key);
    push_str(&mut marker, "</key>");
    let text = chars_of(contents);
    let text_len = text.len();
    let marker_chars = chars_of(marker.as_str());
    let key_at = match find_chars(&text, &marker_chars) {
        Some(i) => i,
        None => return None,
    };
    let after_key = sub_chars(&text, key_at + marker_chars.len(), text_len);
    assert(after_first(contents@, marker@) == Some(after_key@));
    let open_tag = chars_of("<string>");
    let open_at = match find_chars(&after_key, &open_tag) {
        Some(i) => i,
        None => return None,
    };
    let after_open = sub_chars(&after_key, open_at + open_tag.len(), after_key.len());
    assert(after_first(after_key@, "<string>"@) == Some(after_open@));
    let close_tag = chars_of("</string>");
    let close_at = match find_chars(&after_open, &close_tag) {
        Some(i) => i,
        None => return None,
    };
    assert(before_first(after_open@, "</string>"@) == Some(after_open@.subrange(0, close_at as int)));
    let (a, b) = trim_bounds(&after_open, 0, close_at);
    if a == b {
        None
    } else {
        Some(string_of(&after_open, a, b))
    }
}

/// The version recorded in a bundle's `Info.plist` text: the short version
/// string, else the bundle version.
pub open spec fn version_from_plist(contents: Option<Seq<char>>) -> Option<Seq<char>> {
    match contents {
        None => None,
        Some(c) => match plist_value(c, "CFBundleShortVersionString"@) {
            Some(v) => Some(v),
            None => plist_value(c, "CFBundleVersion"@),
        },
    }
}

/// The version of a plugin, from the text of its `Info.plist` when it could be read.
pub fn plugin_version(info_plist: &Option<String>) -> (r: Option<String>)
    ensures
        opt_text(r) == version_from_plist(opt_text(*info_plist)),
{
    match info_plist {
        None => None,
        Some(contents) => {
            match read_plist_string(contents.as_str(), "CFBundleShortVersionString") {
                Some(v) => Some(v),
                None => read_plist_string(contents.as_str(), "CFBundleVersion"),
            }
        },
    }
}

} // verus!
