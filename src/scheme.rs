use vstd::hash_map::StringHashMap;
use vstd::prelude::*;

verus! {

/// A color scheme: the background, foreground and red colors, each held as a
/// string such as `#0c0c0c`. The strings are not checked to be well-formed.
#[derive(Debug, Clone)]
pub struct ColorScheme {
    pub background: String,
    pub foreground: String,
    pub red: String,
}

/// The abstract value of a color scheme: the characters of each color.
pub ghost struct ColorSchemeView {
    pub background: Seq<char>,
    pub foreground: Seq<char>,
    pub red: Seq<char>,
}

impl View for ColorScheme {
    type V = ColorSchemeView;

    open spec fn view(&self) -> ColorSchemeView {
        ColorSchemeView { background: self.background@, foreground: self.foreground@, red: self.red@ }
    }
}

/// The dark default scheme.
pub open spec fn default_scheme() -> ColorSchemeView {
    ColorSchemeView { background: "#0c0c0c"@, foreground: "#cccccc"@, red: "#cd3131"@ }
}

/// The key under which the background color is exported.
pub open spec fn background_key() -> Seq<char> {
    "background"@
}

/// What `to_hashmap` exports of a scheme: its background, under the key
/// `background`, and nothing else.
pub open spec fn export_of(s: ColorSchemeView) -> Map<Seq<char>, Seq<char>> {
    map![background_key() => s.background]
}

/// The characters of each value of an exported map.
pub open spec fn values_of(m: Map<Seq<char>, String>) -> Map<Seq<char>, Seq<char>> {
    m.map_values(|v: String| v@)
}

impl ColorScheme {
    /// The dark default scheme: background `#0c0c0c`, foreground `#cccccc`,
    /// red `#cd3131`.
    pub fn new() -> (r: Self)
        ensures
            r@ == default_scheme(),
    {
        ColorScheme {
            background: "#0c0c0c".to_string(),
            foreground: "#cccccc".to_string(),
            red: "#cd3131".to_string(),
        }
    }

    /// A new map holding a copy of the background color under the key
    /// `background`. The foreground and red colors are not exported.
    pub fn to_hashmap(&self) -> (r: StringHashMap<String>)
        ensures
            values_of(r@) == export_of(self@),
            r@.len() == 1,
            r@[background_key()] == self.background,
    {
        let mut map = StringHashMap::new();
        map.insert("background".to_string(), self.background.clone());
        map
    }
}

/// Any two schemes made by `ColorScheme::new` hold the same colors.
pub proof fn lemma_new_deterministic(a: ColorScheme, b: ColorScheme)
    requires
        a@ == default_scheme(),
        b@ == default_scheme(),
    ensures
        a@ == b@,
        a.background@ == b.background@,
        a.foreground@ == b.foreground@,
        a.red@ == b.red@,
{
}

/// The export of the default scheme has exactly one entry, `background`
/// mapped to `#0c0c0c`; it has no `foreground` and no `red` entry.
pub proof fn lemma_default_export(m: Map<Seq<char>, Seq<char>>)
    requires
        m == export_of(default_scheme()),
    ensures
        m.len() == 1,
        m.contains_key("background"@),
        m["background"@] == "#0c0c0c"@,
        !m.contains_key("foreground"@),
        !m.contains_key("red"@),
{
    reveal_strlit("background");
    reveal_strlit("foreground");
    reveal_strlit("red");
    assert("background"@[0] != "foreground"@[0]);
    assert("background"@.len() != "red"@.len());
    assert(m.dom() =~= set!["background"@]);
}

/// An export is a copy of the scheme's background. Setting the exported
/// entry to `v` yields the export of a scheme whose background is `v`, which
/// is the scheme's own export only when `v` is already its background; and
/// setting the scheme's background to `v` changes its export only when `v`
/// differs from the exported value.
pub proof fn lemma_export_is_copy(s: ColorSchemeView, v: Seq<char>)
    ensures
        export_of(s).insert(background_key(), v) == export_of(
            (ColorSchemeView { background: v, ..s }),
        ),
        (export_of(s).insert(background_key(), v) == export_of(s)) == (v == s.background),
        (export_of((ColorSchemeView { background: v, ..s })) == export_of(s)) == (v
            == s.background),
{
    let bg = background_key();
    assert(export_of(s).insert(bg, v) =~= export_of((ColorSchemeView { background: v, ..s })));
    if export_of(s).insert(bg, v) == export_of(s) {
        assert(export_of(s).insert(bg, v)[bg] == v);
    }
    if v == s.background {
        assert(export_of(s).insert(bg, v) =~= export_of(s));
    }
}

} // verus!
