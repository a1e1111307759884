//! The per-renderer resource caches: registered fonts, decoded images, and
//! rasterized vector-graphics surfaces.
//!
//! Each cache is an association list with unique keys. The caches are
//! generic over the backend-native resource they store: the cache logic
//! never looks inside a resource, it only stores, finds, replaces and
//! removes them under content identities or aliases.

use vstd::prelude::*;
use crate::window::WindowId;

verus! {

/// The index of the first pair whose key equals `key`.
pub open spec fn find_key<K, V>(s: Seq<(K, V)>, key: K) -> Option<int>
    decreases s.len(),
{
    if s.len() == 0 {
        None
    } else if s[0].0 == key {
        Some(0)
    } else {
        match find_key(s.skip(1), key) {
            Some(i) => Some(i + 1),
            None => None,
        }
    }
}

/// What the association list maps `key` to.
pub open spec fn spec_get<K, V>(s: Seq<(K, V)>, key: K) -> Option<V> {
    match find_key(s, key) {
        Some(i) => Some(s[i].1),
        None => None,
    }
}

/// Every key occurs at most once.
pub open spec fn unique_keys<K, V>(s: Seq<(K, V)>) -> bool {
    forall|i: int, j: int| 0 <= i < j < s.len() ==> s[i].0 != s[j].0
}

/// What `find_key` returns is the first occurrence: it carries the key,
/// nothing before it does, and when it is absent no pair carries the key.
pub proof fn lemma_find_key_props<K, V>(s: Seq<(K, V)>, key: K)
    ensures
        match find_key(s, key) {
            Some(i) => 0 <= i < s.len() && s[i].0 == key && (forall|j: int|
                0 <= j < i ==> s[j].0 != key),
            None => forall|j: int| 0 <= j < s.len() ==> s[j].0 != key,
        },
    decreases s.len(),
{
    if s.len() == 0 {
    } else if s[0].0 == key {
    } else {
        let rest = s.skip(1);
        lemma_find_key_props(rest, key);
        assert(forall|j: int| 0 <= j < rest.len() ==> rest[j] == s[j + 1]);
        match find_key(rest, key) {
            Some(i) => {
                assert(s[i + 1] == rest[i]);
                assert forall|j: int| 0 <= j < i + 1 implies s[j].0 != key by {
                    if j > 0 {
                        assert(rest[j - 1] == s[j]);
                    }
                }
            },
            None => {
                assert forall|j: int| 0 <= j < s.len() implies s[j].0 != key by {
                    if j > 0 {
                        assert(rest[j - 1] == s[j]);
                    }
                }
            },
        }
    }
}

/// A pair carrying the key, with none before it, is what `find_key` finds.
pub proof fn lemma_find_key_first<K, V>(s: Seq<(K, V)>, key: K, i: int)
    requires
        0 <= i < s.len(),
        s[i].0 == key,
        forall|j: int| 0 <= j < i ==> s[j].0 != key,
    ensures
        find_key(s, key) == Some(i),
{
    lemma_find_key_props(s, key);
    match find_key(s, key) {
        Some(f) => {
            if f < i {
                assert(s[f].0 != key);
            } else if f > i {
                assert(s[i].0 != key);
            }
        },
        None => {
            assert(s[i].0 != key);
        },
    }
}

/// When no pair carries the key, `find_key` finds nothing.
pub proof fn lemma_find_key_absent<K, V>(s: Seq<(K, V)>, key: K)
    requires
        forall|j: int| 0 <= j < s.len() ==> s[j].0 != key,
    ensures
        find_key(s, key) is None,
{
    lemma_find_key_props(s, key);
    match find_key(s, key) {
        Some(f) => {
            assert(s[f].0 != key);
        },
        None => {},
    }
}

/// Replacing the pair at the found index changes what the list maps the
/// found key to and nothing else.
pub proof fn lemma_spec_get_update<K, V>(s: Seq<(K, V)>, key: K, i: int, v: V)
    requires
        unique_keys(s),
        0 <= i < s.len(),
        s[i].0 == key,
    ensures
        unique_keys(s.update(i, (key, v))),
        spec_get(s.update(i, (key, v)), key) == Some(v),
        forall|k: K| k != key ==> spec_get(s.update(i, (key, v)), k) == spec_get(s, k),
{
    let t = s.update(i, (key, v));
    assert forall|a: int, b: int| 0 <= a < b < t.len() implies t[a].0 != t[b].0 by {
        assert(s[a].0 != s[b].0);
    }
    assert forall|j: int| 0 <= j < i implies t[j].0 != key by {
        assert(s[j].0 != s[i].0);
    }
    lemma_find_key_first(t, key, i);
    assert forall|k: K| k != key implies spec_get(t, k) == spec_get(s, k) by {
        lemma_find_key_props(s, k);
        lemma_find_key_props(t, k);
        match find_key(s, k) {
            Some(f) => {
                assert(t[f].0 == k);
                assert forall|j: int| 0 <= j < f implies t[j].0 != k by {
                    assert(s[j].0 != k);
                }
                lemma_find_key_first(t, k, f);
            },
            None => {
                assert forall|j: int| 0 <= j < t.len() implies t[j].0 != k by {
                    assert(s[j].0 != k);
                }
                lemma_find_key_absent(t, k);
            },
        }
    }
}

/// Appending a pair under a fresh key changes what the list maps that key
/// to and nothing else.
pub proof fn lemma_spec_get_push<K, V>(s: Seq<(K, V)>, key: K, v: V)
    requires
        unique_keys(s),
        find_key(s, key) is None,
    ensures
        unique_keys(s.push((key, v))),
        spec_get(s.push((key, v)), key) == Some(v),
        forall|k: K| k != key ==> spec_get(s.push((key, v)), k) == spec_get(s, k),
{
    lemma_find_key_props(s, key);
    let t = s.push((key, v));
    assert forall|a: int, b: int| 0 <= a < b < t.len() implies t[a].0 != t[b].0 by {
        if b < s.len() {
            assert(s[a].0 != s[b].0);
        } else {
            assert(s[a].0 != key);
        }
    }
    assert(t[s.len() as int].0 == key);
    assert forall|j: int| 0 <= j < s.len() implies t[j].0 != key by {
        assert(s[j].0 != key);
    }
    lemma_find_key_first(t, key, s.len() as int);
    assert forall|k: K| k != key implies spec_get(t, k) == spec_get(s, k) by {
        lemma_find_key_props(s, k);
        match find_key(s, k) {
            Some(f) => {
                assert(t[f].0 == k);
                assert forall|j: int| 0 <= j < f implies t[j].0 != k by {
                    assert(s[j].0 != k);
                }
                lemma_find_key_first(t, k, f);
            },
            None => {
                assert forall|j: int| 0 <= j < t.len() implies t[j].0 != k by {
                    if j < s.len() {
                        assert(s[j].0 != k);
                    }
                }
                lemma_find_key_absent(t, k);
            },
        }
    }
}

/// Removing the pair at an index takes its key out of the map and leaves
/// every other key's mapping as it was.
pub proof fn lemma_spec_get_remove<K, V>(s: Seq<(K, V)>, i: int)
    requires
        unique_keys(s),
        0 <= i < s.len(),
    ensures
        unique_keys(s.remove(i)),
        spec_get(s.remove(i), s[i].0) is None,
        forall|k: K| k != s[i].0 ==> spec_get(s.remove(i), k) == spec_get(s, k),
{
    let key = s[i].0;
    let t = s.remove(i);
    assert forall|a: int, b: int| 0 <= a < b < t.len() implies t[a].0 != t[b].0 by {
        let sa = if a < i {
            a
        } else {
            a + 1
        };
        let sb = if b < i {
            b
        } else {
            b + 1
        };
        assert(t[a] == s[sa] && t[b] == s[sb]);
        assert(s[sa].0 != s[sb].0);
    }
    assert forall|j: int| 0 <= j < t.len() implies t[j].0 != key by {
        let sj = if j < i {
            j
        } else {
            j + 1
        };
        assert(t[j] == s[sj]);
        assert(s[sj].0 != s[i].0);
    }
    lemma_find_key_absent(t, key);
    assert forall|k: K| k != key implies spec_get(t, k) == spec_get(s, k) by {
        lemma_find_key_props(s, k);
        match find_key(s, k) {
            Some(f) => {
                let tf = if f < i {
                    f
                } else {
                    f - 1
                };
                assert(f != i);
                assert(t[tf] == s[f]);
                assert forall|j: int| 0 <= j < tf implies t[j].0 != k by {
                    let sj = if j < i {
                        j
                    } else {
                        j + 1
                    };
                    assert(t[j] == s[sj]);
                    assert(s[sj].0 != k);
                }
                lemma_find_key_first(t, k, tf);
            },
            None => {
                assert forall|j: int| 0 <= j < t.len() implies t[j].0 != k by {
                    let sj = if j < i {
                        j
                    } else {
                        j + 1
                    };
                    assert(t[j] == s[sj]);
                    assert(s[sj].0 != k);
                }
                lemma_find_key_absent(t, k);
            },
        }
    }
}

/// The abstract state of a font cache: alias/resource pairs in
/// registration order, and which entry is the default.
pub struct FontModel<F> {
    pub entries: Seq<(Seq<char>, F)>,
    pub default_index: Option<int>,
}

impl<F> FontModel<F> {
    pub open spec fn wf(&self) -> bool {
        &&& unique_keys(self.entries)
        &&& match self.default_index {
            Some(i) => 0 <= i < self.entries.len(),
            None => self.entries.len() == 0,
        }
    }

    /// The alias of the default font, if a default exists.
    pub open spec fn default_alias(&self) -> Option<Seq<char>> {
        match self.default_index {
            Some(i) => Some(self.entries[i].0),
            None => None,
        }
    }

    /// The default font itself, if a default exists.
    pub open spec fn default_font(&self) -> Option<F> {
        match self.default_index {
            Some(i) => Some(self.entries[i].1),
            None => None,
        }
    }
}

/// Registering a font under an alias: an existing alias has its resource
/// replaced in place; a new alias is appended, and becomes the default
/// only if no default exists yet.
///
/// The default is deliberately tracked by alias, not by value snapshot:
/// re-registering the alias the default points at makes the new resource
/// the default, rather than keeping a stale copy of the replaced one.
pub open spec fn register_font_model<F>(m: FontModel<F>, alias: Seq<char>, font: F) -> FontModel<
    F,
> {
    match find_key(m.entries, alias) {
        Some(i) => FontModel {
            entries: m.entries.update(i, (alias, font)),
            default_index: m.default_index,
        },
        None => FontModel {
            entries: m.entries.push((alias, font)),
            default_index: if m.default_index is None {
                Some(m.entries.len() as int)
            } else {
                m.default_index
            },
        },
    }
}

/// Registering a font as the default: stored like `register_font_model`,
/// and the default pointer always moves to this entry, regardless of
/// registration order.
pub open spec fn register_default_font_model<F>(m: FontModel<F>, alias: Seq<char>, font: F)
    -> FontModel<F> {
    match find_key(m.entries, alias) {
        Some(i) => FontModel {
            entries: m.entries.update(i, (alias, font)),
            default_index: Some(i),
        },
        None => FontModel {
            entries: m.entries.push((alias, font)),
            default_index: Some(m.entries.len() as int),
        },
    }
}

/// What a lookup yields: the font under the alias when one is registered,
/// and the default font otherwise (also when no alias is given).
pub open spec fn spec_get_font<F>(m: FontModel<F>, alias: Option<Seq<char>>) -> Option<F> {
    match alias {
        Some(a) => match find_key(m.entries, a) {
            Some(i) => Some(m.entries[i].1),
            None => m.default_font(),
        },
        None => m.default_font(),
    }
}

/// The default-selection rule: a font registered without the default flag
/// becomes default only when no default exists yet and otherwise leaves
/// the default's alias alone, while registering as default always moves
/// the default to the new entry.
pub proof fn lemma_font_default_selection<F>(m: FontModel<F>, alias: Seq<char>, font: F)
    requires
        m.wf(),
    ensures
        m.default_index is None ==> register_font_model(m, alias, font).default_alias() == Some(
            alias,
        ),
        m.default_alias() matches Some(d) ==> register_font_model(m, alias, font).default_alias()
            == Some(if d == alias { alias } else { d }),
        register_default_font_model(m, alias, font).default_alias() == Some(alias),
        register_font_model(m, alias, font).wf(),
        register_default_font_model(m, alias, font).wf(),
{
    lemma_find_key_props(m.entries, alias);
    match find_key(m.entries, alias) {
        Some(i) => {
            lemma_spec_get_update(m.entries, alias, i, font);
            match m.default_index {
                Some(d) => {
                    if d == i {
                    } else {
                        assert(m.entries.update(i, (alias, font))[d] == m.entries[d]);
                        assert(m.entries[d].0 != alias);
                    }
                },
                None => {},
            }
        },
        None => {
            lemma_spec_get_push(m.entries, alias, font);
            match m.default_index {
                Some(d) => {
                    assert(m.entries.push((alias, font))[d] == m.entries[d]);
                    assert(m.entries[d].0 != alias);
                },
                None => {},
            }
        },
    }
}

/// The view of concrete alias/resource pairs as the abstract pairs the
/// model speaks of.
pub open spec fn font_entries_view<F>(s: Seq<(String, F)>) -> Seq<(Seq<char>, F)> {
    Seq::new(s.len(), |i: int| (s[i].0@, s[i].1))
}

/// The concrete font cache of one renderer: registered typefaces by alias,
/// plus the default-font pointer. The default pointer follows its alias:
/// see `register_font_model`.
pub struct FontCache<F> {
    pub entries: Vec<(String, F)>,
    pub default_index: Option<usize>,
}

impl<F> FontCache<F> {
    /// The cache's abstract state.
    pub open spec fn model(&self) -> FontModel<F> {
        FontModel {
            entries: font_entries_view(self.entries@),
            default_index: match self.default_index {
                Some(i) => Some(i as int),
                None => None,
            },
        }
    }

    pub open spec fn wf(&self) -> bool {
        self.model().wf()
    }

    /// An empty cache with no default.
    pub fn new() -> (r: Self)
        ensures
            r.wf(),
            r.model().entries.len() == 0,
            r.model().default_index is None,
    {
        let r = Self { entries: Vec::new(), default_index: None };
        proof {
            assert(r.model().entries =~= Seq::<(Seq<char>, F)>::empty());
        }
        r
    }

    fn find_index(&self, alias: &str) -> (r: Option<usize>)
        ensures
            match r {
                Some(i) => find_key(self.model().entries, alias@) == Some(i as int),
                None => find_key(self.model().entries, alias@) is None,
            },
    {
        let owned: String = alias.to_owned();
        let n = self.entries.len();
        let mut i: usize = 0;
        while i < n
            invariant
                owned@ == alias@,
                n == self.entries@.len(),
                i <= n,
                forall|j: int| 0 <= j < i ==> self.model().entries[j].0 != alias@,
            decreases n - i,
        {
            if self.entries[i].0 == owned {
                proof {
                    assert(self.model().entries[i as int].0 == alias@);
                    lemma_find_key_first(self.model().entries, alias@, i as int);
                }
                return Some(i);
            }
            proof {
                assert(self.model().entries[i as int].0 == self.entries@[i as int].0@);
            }
            i = i + 1;
        }
        proof {
            lemma_find_key_absent(self.model().entries, alias@);
        }
        None
    }

    /// Registers a font under an alias; it becomes the default only if no
    /// default exists yet. Re-registering the alias the default points at
    /// replaces the default font along with the entry — the default
    /// follows the alias, never a stale value.
    pub fn register_font(&mut self, font: F, alias: &str)
        requires
            old(self).wf(),
            old(self).entries@.len() < usize::MAX,
        ensures
            final(self).wf(),
            final(self).model() == register_font_model(old(self).model(), alias@, font),
    {
        let ghost m0 = self.model();
        proof {
            lemma_find_key_props(m0.entries, alias@);
        }
        match self.find_index(alias) {
            Some(i) => {
                self.entries.remove(i);
                self.entries.insert(i, (alias.to_owned(), font));
                proof {
                    assert(self.model().entries =~= m0.entries.update(i as int, (alias@, font)));
                }
            },
            None => {
                self.entries.push((alias.to_owned(), font));
                if self.default_index.is_none() {
                    self.default_index = Some(self.entries.len() - 1);
                }
                proof {
                    assert(self.model().entries =~= m0.entries.push((alias@, font)));
                }
            },
        }
        proof {
            lemma_font_default_selection(m0, alias@, font);
        }
    }

    /// Registers a font under an alias and makes it the default,
    /// regardless of registration order.
    pub fn register_default_font(&mut self, font: F, alias: &str)
        requires
            old(self).wf(),
            old(self).entries@.len() < usize::MAX,
        ensures
            final(self).wf(),
            final(self).model() == register_default_font_model(old(self).model(), alias@, font),
    {
        let ghost m0 = self.model();
        proof {
            lemma_find_key_props(m0.entries, alias@);
        }
        match self.find_index(alias) {
            Some(i) => {
                self.entries.remove(i);
                self.entries.insert(i, (alias.to_owned(), font));
                self.default_index = Some(i);
                proof {
                    assert(self.model().entries =~= m0.entries.update(i as int, (alias@, font)));
                }
            },
            None => {
                self.entries.push((alias.to_owned(), font));
                self.default_index = Some(self.entries.len() - 1);
                proof {
                    assert(self.model().entries =~= m0.entries.push((alias@, font)));
                }
            },
        }
        proof {
            lemma_font_default_selection(m0, alias@, font);
        }
    }

    /// Looks a font up: the alias's font when that alias is registered,
    /// else the default font; no alias asks for the default directly.
    pub fn get_font(&self, alias: Option<&str>) -> (r: Option<&F>)
        requires
            self.wf(),
        ensures
            match r {
                Some(f) => spec_get_font(
                    self.model(),
                    match alias {
                        Some(a) => Some(a@),
                        None => None,
                    },
                ) == Some(*f),
                None => spec_get_font(
                    self.model(),
                    match alias {
                        Some(a) => Some(a@),
                        None => None,
                    },
                ) is None,
            },
    {
        match alias {
            Some(a) => {
                match self.find_index(a) {
                    Some(i) => {
                        proof {
                            lemma_find_key_props(self.model().entries, a@);
                            assert(self.model().entries[i as int].1 == self.entries@[i as int].1);
                        }
                        Some(&self.entries[i].1)
                    },
                    None => self.default_font_ref(),
                }
            },
            None => self.default_font_ref(),
        }
    }

    fn default_font_ref(&self) -> (r: Option<&F>)
        requires
            self.wf(),
        ensures
            match r {
                Some(f) => self.model().default_font() == Some(*f),
                None => self.model().default_font() is None,
            },
    {
        match self.default_index {
            Some(i) => {
                proof {
                    assert(self.model().entries[i as int].1 == self.entries@[i as int].1);
                }
                Some(&self.entries[i].1)
            },
            None => None,
        }
    }
}

/// Finds the first pair under a content identity.
fn find_id<V>(entries: &Vec<(u128, V)>, id: u128) -> (r: Option<usize>)
    ensures
        match r {
            Some(i) => find_key(entries@, id) == Some(i as int),
            None => find_key(entries@, id) is None,
        },
{
    let n = entries.len();
    let mut i: usize = 0;
    while i < n
        invariant
            n == entries@.len(),
            i <= n,
            forall|j: int| 0 <= j < i ==> entries@[j].0 != id,
        decreases n - i,
    {
        if entries[i].0 == id {
            proof {
                lemma_find_key_first(entries@, id, i as int);
            }
            return Some(i);
        }
        i = i + 1;
    }
    proof {
        lemma_find_key_absent(entries@, id);
    }
    None
}

/// The image cache of one renderer: backend-native images by content
/// identity. Entries appear lazily on first draw or by explicit preload,
/// and leave only by explicit unload.
pub struct ImageCache<I> {
    pub entries: Vec<(u128, I)>,
}

impl<I> ImageCache<I> {
    pub open spec fn wf(&self) -> bool {
        unique_keys(self.entries@)
    }

    /// An empty cache.
    pub fn new() -> (r: Self)
        ensures
            r.wf(),
            r.entries@.len() == 0,
    {
        Self { entries: Vec::new() }
    }

    /// Stores an image under its content identity, replacing whatever the
    /// identity mapped to; every other identity keeps its mapping.
    pub fn load_image(&mut self, id: u128, image: I)
        requires
            old(self).wf(),
            old(self).entries@.len() < usize::MAX,
        ensures
            final(self).wf(),
            spec_get(final(self).entries@, id) == Some(image),
            forall|k: u128| k != id ==> spec_get(final(self).entries@, k) == spec_get(
                old(self).entries@,
                k,
            ),
    {
        let ghost s0 = self.entries@;
        match find_id(&self.entries, id) {
            Some(i) => {
                proof {
                    lemma_find_key_props(s0, id);
                }
                self.entries.remove(i);
                self.entries.insert(i, (id, image));
                proof {
                    assert(self.entries@ =~= s0.update(i as int, (id, image)));
                    lemma_spec_get_update(s0, id, i as int, image);
                }
            },
            None => {
                self.entries.push((id, image));
                proof {
                    lemma_spec_get_push(s0, id, image);
                }
            },
        }
    }

    /// Removes whatever the identity maps to; every other identity keeps
    /// its mapping.
    pub fn unload_image(&mut self, id: u128)
        requires
            old(self).wf(),
        ensures
            final(self).wf(),
            spec_get(final(self).entries@, id) is None,
            forall|k: u128| k != id ==> spec_get(final(self).entries@, k) == spec_get(
                old(self).entries@,
                k,
            ),
    {
        let ghost s0 = self.entries@;
        match find_id(&self.entries, id) {
            Some(i) => {
                proof {
                    lemma_find_key_props(s0, id);
                }
                self.entries.remove(i);
                proof {
                    lemma_spec_get_remove(s0, i as int);
                }
            },
            None => {
                proof {
                    lemma_find_key_props(s0, id);
                }
            },
        }
    }

    /// The image under a content identity, when one is cached.
    pub fn get_image(&self, id: u128) -> (r: Option<&I>)
        requires
            self.wf(),
        ensures
            match r {
                Some(image) => spec_get(self.entries@, id) == Some(*image),
                None => spec_get(self.entries@, id) is None,
            },
    {
        match find_id(&self.entries, id) {
            Some(i) => {
                proof {
                    lemma_find_key_props(self.entries@, id);
                }
                Some(&self.entries[i].1)
            },
            None => None,
        }
    }
}

/// A rasterized vector-graphics surface: the parsed document, the surface
/// it was rendered into, the pixel size it was rendered at, and the window
/// whose GPU context produced it.
pub struct SvgWithSurface<D, S> {
    pub dom: D,
    pub surface: S,
    pub width: u32,
    pub height: u32,
    pub associate_window: WindowId,
}

/// One vector-graphics cache entry: parsed but not yet rasterized, or
/// rasterized at a recorded size for a recorded window.
pub enum SvgCacheEntry<D, S> {
    Dom(D),
    Surface(SvgWithSurface<D, S>),
}

/// The window a rasterized entry is tied to; a merely parsed entry is tied
/// to none.
pub open spec fn associated_window<D, S>(e: SvgCacheEntry<D, S>) -> Option<WindowId> {
    match e {
        SvgCacheEntry::Surface(svg) => Some(svg.associate_window),
        SvgCacheEntry::Dom(_) => None,
    }
}

/// What a draw at a given size must do with a cache entry.
#[derive(Debug, PartialEq, Eq, Clone, Copy, Structural)]
pub enum SvgQuery {
    /// A surface is cached at exactly this size: reuse it.
    Hit,
    /// The document is parsed, but no surface of this size is cached:
    /// rasterize (again) and record the result.
    NeedsRasterize,
    /// Nothing is cached under the identity: parse first.
    NeedsParse,
}

/// What a lookup at a size yields for a mapped entry.
pub open spec fn svg_query_model<D, S>(
    entry: Option<SvgCacheEntry<D, S>>,
    width: u32,
    height: u32,
) -> SvgQuery {
    match entry {
        None => SvgQuery::NeedsParse,
        Some(SvgCacheEntry::Dom(_)) => SvgQuery::NeedsRasterize,
        Some(SvgCacheEntry::Surface(svg)) => if svg.width == width && svg.height == height {
            SvgQuery::Hit
        } else {
            SvgQuery::NeedsRasterize
        },
    }
}

/// Recording a rasterization: the identity maps to the surface entry, and
/// every other identity keeps its mapping.
pub open spec fn record_surface_model<D, S>(
    s: Seq<(u128, SvgCacheEntry<D, S>)>,
    id: u128,
    svg: SvgWithSurface<D, S>,
) -> Seq<(u128, SvgCacheEntry<D, S>)> {
    match find_key(s, id) {
        Some(i) => s.update(i, (id, SvgCacheEntry::Surface(svg))),
        None => s.push((id, SvgCacheEntry::Surface(svg))),
    }
}

/// What removing a window's data does to one entry: a rasterized entry
/// tied to that window is evicted, anything else is kept.
pub open spec fn purge_entry<D, S>(
    entry: Option<SvgCacheEntry<D, S>>,
    window: WindowId,
) -> Option<SvgCacheEntry<D, S>> {
    match entry {
        Some(e) => if associated_window(e) == Some(window) {
            None
        } else {
            Some(e)
        },
        None => None,
    }
}

/// The vector-graphics cache of one renderer: per content identity, the
/// parsed document and, after the first draw, the rasterized surface with
/// its size and window.
pub struct SvgCache<D, S> {
    pub entries: Vec<(u128, SvgCacheEntry<D, S>)>,
}

impl<D, S> SvgCache<D, S> {
    pub open spec fn wf(&self) -> bool {
        unique_keys(self.entries@)
    }

    /// An empty cache.
    pub fn new() -> (r: Self)
        ensures
            r.wf(),
            r.entries@.len() == 0,
    {
        Self { entries: Vec::new() }
    }

    /// Stores a parsed document under its content identity, replacing
    /// whatever the identity mapped to; every other identity keeps its
    /// mapping.
    pub fn load_svg(&mut self, id: u128, dom: D)
        requires
            old(self).wf(),
            old(self).entries@.len() < usize::MAX,
        ensures
            final(self).wf(),
            spec_get(final(self).entries@, id) == Some(SvgCacheEntry::<D, S>::Dom(dom)),
            forall|k: u128| k != id ==> spec_get(final(self).entries@, k) == spec_get(
                old(self).entries@,
                k,
            ),
    {
        let ghost s0 = self.entries@;
        let entry = SvgCacheEntry::Dom(dom);
        match find_id(&self.entries, id) {
            Some(i) => {
                proof {
                    lemma_find_key_props(s0, id);
                }
                self.entries.remove(i);
                self.entries.insert(i, (id, entry));
                proof {
                    assert(self.entries@ =~= s0.update(i as int, (id, entry)));
                    lemma_spec_get_update(s0, id, i as int, entry);
                }
            },
            None => {
                self.entries.push((id, entry));
                proof {
                    lemma_spec_get_push(s0, id, entry);
                }
            },
        }
    }

    /// Removes whatever the identity maps to; every other identity keeps
    /// its mapping.
    pub fn unload_svg(&mut self, id: u128)
        requires
            old(self).wf(),
        ensures
            final(self).wf(),
            spec_get(final(self).entries@, id) is None,
            forall|k: u128| k != id ==> spec_get(final(self).entries@, k) == spec_get(
                old(self).entries@,
                k,
            ),
    {
        let ghost s0 = self.entries@;
        match find_id(&self.entries, id) {
            Some(i) => {
                proof {
                    lemma_find_key_props(s0, id);
                }
                self.entries.remove(i);
                proof {
                    lemma_spec_get_remove(s0, i as int);
                }
            },
            None => {
                proof {
                    lemma_find_key_props(s0, id);
                }
            },
        }
    }

    /// What a draw of the identity at this size must do: reuse the cached
    /// surface on a hit, re-rasterize on a size change or a merely parsed
    /// entry, parse first when nothing is cached.
    pub fn query(&self, id: u128, width: u32, height: u32) -> (r: SvgQuery)
        requires
            self.wf(),
        ensures
            r == svg_query_model(spec_get(self.entries@, id), width, height),
    {
        match find_id(&self.entries, id) {
            Some(i) => {
                proof {
                    lemma_find_key_props(self.entries@, id);
                }
                match &self.entries[i].1 {
                    SvgCacheEntry::Dom(_) => SvgQuery::NeedsRasterize,
                    SvgCacheEntry::Surface(svg) => {
                        if svg.width == width && svg.height == height {
                            SvgQuery::Hit
                        } else {
                            SvgQuery::NeedsRasterize
                        }
                    },
                }
            },
            None => SvgQuery::NeedsParse,
        }
    }

    /// The rasterized surface under an identity, when one is cached.
    pub fn get_surface(&self, id: u128) -> (r: Option<&SvgWithSurface<D, S>>)
        requires
            self.wf(),
        ensures
            match r {
                Some(svg) => spec_get(self.entries@, id) == Some(
                    SvgCacheEntry::<D, S>::Surface(*svg),
                ),
                None => !(spec_get(self.entries@, id) matches Some(SvgCacheEntry::Surface(_))),
            },
    {
        match find_id(&self.entries, id) {
            Some(i) => {
                proof {
                    lemma_find_key_props(self.entries@, id);
                }
                match &self.entries[i].1 {
                    SvgCacheEntry::Surface(svg) => Some(svg),
                    SvgCacheEntry::Dom(_) => None,
                }
            },
            None => None,
        }
    }

    /// Records a rasterization: the identity now maps to this surface
    /// entry (replacing a parsed entry or an older size), and every other
    /// identity keeps its mapping.
    pub fn record_rasterized(&mut self, id: u128, svg: SvgWithSurface<D, S>)
        requires
            old(self).wf(),
            old(self).entries@.len() < usize::MAX,
        ensures
            final(self).wf(),
            final(self).entries@ == record_surface_model(old(self).entries@, id, svg),
            spec_get(final(self).entries@, id) == Some(SvgCacheEntry::<D, S>::Surface(svg)),
            forall|k: u128| k != id ==> spec_get(final(self).entries@, k) == spec_get(
                old(self).entries@,
                k,
            ),
    {
        let ghost s0 = self.entries@;
        let entry = SvgCacheEntry::Surface(svg);
        match find_id(&self.entries, id) {
            Some(i) => {
                proof {
                    lemma_find_key_props(s0, id);
                }
                self.entries.remove(i);
                self.entries.insert(i, (id, entry));
                proof {
                    assert(self.entries@ =~= s0.update(i as int, (id, entry)));
                    lemma_spec_get_update(s0, id, i as int, entry);
                }
            },
            None => {
                self.entries.push((id, entry));
                proof {
                    lemma_spec_get_push(s0, id, entry);
                }
            },
        }
    }

    /// Evicts every rasterized entry tied to the closed window; every
    /// entry tied to another window, every merely parsed entry, and every
    /// other identity's mapping stay as they were.
    pub fn remove_window_data(&mut self, window_id: &WindowId)
        requires
            old(self).wf(),
        ensures
            final(self).wf(),
            forall|id: u128| spec_get(final(self).entries@, id) == purge_entry(
                spec_get(old(self).entries@, id),
                *window_id,
            ),
    {
        let ghost s0 = self.entries@;
        let w = *window_id;
        let mut i: usize = 0;
        while i < self.entries.len()
            invariant
                unique_keys(self.entries@),
                i <= self.entries@.len(),
                forall|j: int| 0 <= j < i ==> associated_window(self.entries@[j].1) != Some(w),
                forall|id: u128|
                    spec_get(self.entries@, id) == spec_get(s0, id) || (spec_get(
                        self.entries@,
                        id,
                    ) is None && purge_entry(spec_get(s0, id), w) is None),
            decreases self.entries@.len() - i,
        {
            let matches_window = match &self.entries[i].1 {
                SvgCacheEntry::Surface(svg) => {
                    let id_matches = svg.associate_window == w;
                    id_matches
                },
                SvgCacheEntry::Dom(_) => false,
            };
            if matches_window {
                let ghost cur = self.entries@;
                let ghost key = cur[i as int].0;
                proof {
                    assert forall|j: int| 0 <= j < i implies cur[j].0 != key by {
                        assert(cur[j].0 != cur[i as int].0);
                    }
                    lemma_find_key_first(cur, key, i as int);
                    assert(spec_get(cur, key) == Some(cur[i as int].1));
                    lemma_spec_get_remove(cur, i as int);
                }
                self.entries.remove(i);
            } else {
                i = i + 1;
            }
        }
        proof {
            assert forall|id: u128|
                spec_get(self.entries@, id) == purge_entry(spec_get(s0, id), w) by {
                lemma_find_key_props(self.entries@, id);
                match spec_get(self.entries@, id) {
                    Some(e) => {
                        match find_key(self.entries@, id) {
                            Some(f) => {
                                assert(associated_window(self.entries@[f].1) != Some(w));
                            },
                            None => {},
                        }
                    },
                    None => {},
                }
            }
        }
    }
}

/// The merely parsed documents of a cache, in order, keyed as they were.
pub open spec fn doms_of<D, S>(s: Seq<(u128, SvgCacheEntry<D, S>)>) -> Seq<(u128, D)>
    decreases s.len(),
{
    if s.len() == 0 {
        Seq::empty()
    } else {
        let rest = doms_of(s.drop_last());
        match s.last().1 {
            SvgCacheEntry::Dom(d) => rest.push((s.last().0, d)),
            SvgCacheEntry::Surface(_) => rest,
        }
    }
}

/// The rasterized surfaces of a cache, in order, keyed as they were.
pub open spec fn surfaces_of<D, S>(s: Seq<(u128, SvgCacheEntry<D, S>)>) -> Seq<
    (u128, SvgWithSurface<D, S>),
>
    decreases s.len(),
{
    if s.len() == 0 {
        Seq::empty()
    } else {
        let rest = surfaces_of(s.drop_last());
        match s.last().1 {
            SvgCacheEntry::Surface(svg) => rest.push((s.last().0, svg)),
            SvgCacheEntry::Dom(_) => rest,
        }
    }
}

impl<D, S> SvgCache<D, S> {
    /// Tears the cache down, partitioning what it held: merely parsed
    /// documents destruct normally, while every rasterized surface is
    /// handed back separately so its native destructor can be skipped —
    /// the GPU context that produced it is gone by teardown, and running
    /// the destructor would free it a second time.
    pub fn teardown(self) -> (r: (Vec<(u128, D)>, Vec<(u128, SvgWithSurface<D, S>)>))
        ensures
            r.0@ == doms_of(self.entries@),
            r.1@ == surfaces_of(self.entries@),
    {
        let ghost s0 = self.entries@;
        let mut entries = self.entries;
        let mut doms: Vec<(u128, D)> = Vec::new();
        let mut surfaces: Vec<(u128, SvgWithSurface<D, S>)> = Vec::new();
        let n0: usize = entries.len();
        proof {
            assert(s0.len() == n0 as int);
        }
        let mut k: usize = 0;
        while entries.len() > 0
            invariant
                s0.len() <= usize::MAX,
                k <= s0.len(),
                entries@ =~= s0.skip(k as int),
                doms@ == doms_of(s0.take(k as int)),
                surfaces@ == surfaces_of(s0.take(k as int)),
            decreases entries@.len(),
        {
            let pair = entries.remove(0);
            proof {
                assert(pair == s0[k as int]);
                assert(entries@ =~= s0.skip(k as int + 1));
                assert(s0.take(k as int + 1).drop_last() =~= s0.take(k as int));
                assert(s0.take(k as int + 1).last() == s0[k as int]);
            }
            let (id, entry) = pair;
            match entry {
                SvgCacheEntry::Dom(d) => {
                    doms.push((id, d));
                },
                SvgCacheEntry::Surface(svg) => {
                    surfaces.push((id, svg));
                },
            }
            k = k + 1;
        }
        proof {
            assert(s0.take(k as int) =~= s0);
        }
        (doms, surfaces)
    }
}

/// Reusing and re-rasterizing: once a rasterization at some size is
/// recorded for an identity, a draw at that same size is a cache hit that
/// reuses the surface, and a draw at any other size must re-rasterize.
pub proof fn lemma_svg_rasterize_cache<D, S>(
    s: Seq<(u128, SvgCacheEntry<D, S>)>,
    id: u128,
    svg: SvgWithSurface<D, S>,
    width2: u32,
    height2: u32,
)
    requires
        unique_keys(s),
    ensures
        svg_query_model(
            spec_get(record_surface_model(s, id, svg), id),
            svg.width,
            svg.height,
        ) == SvgQuery::Hit,
        (width2, height2) != (svg.width, svg.height) ==> svg_query_model(
            spec_get(record_surface_model(s, id, svg), id),
            width2,
            height2,
        ) == SvgQuery::NeedsRasterize,
        spec_get(record_surface_model(s, id, svg), id) == Some(
            SvgCacheEntry::<D, S>::Surface(svg),
        ),
{
    lemma_find_key_props(s, id);
    let entry = SvgCacheEntry::Surface(svg);
    match find_key(s, id) {
        Some(i) => {
            lemma_spec_get_update(s, id, i, entry);
        },
        None => {
            lemma_spec_get_push(s, id, entry);
        },
    }
}

/// Whether a mapped entry is a rasterization tied to the given window.
pub open spec fn entry_tagged_with<D, S>(
    entry: Option<SvgCacheEntry<D, S>>,
    window: WindowId,
) -> bool {
    match entry {
        Some(e) => associated_window(e) == Some(window),
        None => false,
    }
}

/// Window-scoped eviction: after a window's data is removed, no entry tied
/// to that window remains retrievable, and every entry tied elsewhere (or
/// to no window) is retrievable unchanged.
pub proof fn lemma_window_purge<D, S>(
    before: Seq<(u128, SvgCacheEntry<D, S>)>,
    after: Seq<(u128, SvgCacheEntry<D, S>)>,
    window: WindowId,
)
    requires
        forall|id: u128| spec_get(after, id) == purge_entry(spec_get(before, id), window),
    ensures
        forall|id: u128|
            entry_tagged_with(spec_get(before, id), window) ==> spec_get(after, id) is None,
        forall|id: u128|
            !entry_tagged_with(spec_get(before, id), window) ==> spec_get(after, id) == spec_get(
                before,
                id,
            ),
{
}

} // verus!
