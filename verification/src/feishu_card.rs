//! Card payloads and their builders.
//!
//! A card is pure data: a global configuration, a header per language, and a
//! list of elements per language. The component trees themselves live outside
//! this core; an element carries its prepared content. The per-language
//! tables are association lists whose keys stay unique — the builders
//! establish and preserve that invariant.

use vstd::prelude::*;
use vstd::string::StringExecFns;

use crate::strutil::str_eq;

verus! {

/// The languages a card can address.
#[derive(Clone, Copy, PartialEq, Eq, Structural, Debug, Hash)]
pub enum FeishuCardLanguage {
    ZhCN,
    EnUS,
    JaJP,
    ZhHK,
    ZhTW,
}

/// The language tags the platform accepts.
pub open spec fn valid_language(s: Seq<char>) -> bool {
    ||| s == "zh_cn"@
    ||| s == "en_us"@
    ||| s == "ja_jp"@
    ||| s == "zh_hk"@
    ||| s == "zh_tw"@
}

impl FeishuCardLanguage {
    /// Parses a language tag; any other string is rejected with a message
    /// naming it.
    pub fn from_str(s: &str) -> (r: Result<FeishuCardLanguage, String>)
        ensures
            r is Ok <==> valid_language(s@),
            s@ == "zh_cn"@ ==> r == Ok::<_, String>(FeishuCardLanguage::ZhCN),
            s@ == "en_us"@ ==> r == Ok::<_, String>(FeishuCardLanguage::EnUS),
            s@ == "ja_jp"@ ==> r == Ok::<_, String>(FeishuCardLanguage::JaJP),
            s@ == "zh_hk"@ ==> r == Ok::<_, String>(FeishuCardLanguage::ZhHK),
            s@ == "zh_tw"@ ==> r == Ok::<_, String>(FeishuCardLanguage::ZhTW),
            r matches Err(m) ==> m@ == "unknown language: "@ + s@,
    {
        proof {
            reveal_strlit("zh_cn");
            reveal_strlit("en_us");
            reveal_strlit("ja_jp");
            reveal_strlit("zh_hk");
            reveal_strlit("zh_tw");
            assert("zh_cn"@[0] == 'z' && "zh_cn"@[3] == 'c');
            assert("en_us"@[0] == 'e');
            assert("ja_jp"@[0] == 'j');
            assert("zh_hk"@[0] == 'z' && "zh_hk"@[3] == 'h');
            assert("zh_tw"@[0] == 'z' && "zh_tw"@[3] == 't');
            assert("zh_cn"@ != "en_us"@ && "zh_cn"@ != "ja_jp"@ && "zh_cn"@ != "zh_hk"@
                && "zh_cn"@ != "zh_tw"@);
            assert("en_us"@ != "ja_jp"@ && "en_us"@ != "zh_hk"@ && "en_us"@ != "zh_tw"@);
            assert("ja_jp"@ != "zh_hk"@ && "ja_jp"@ != "zh_tw"@);
            assert("zh_hk"@ != "zh_tw"@);
        }
        if str_eq(s, "zh_cn") {
            Ok(FeishuCardLanguage::ZhCN)
        } else if str_eq(s, "en_us") {
            Ok(FeishuCardLanguage::EnUS)
        } else if str_eq(s, "ja_jp") {
            Ok(FeishuCardLanguage::JaJP)
        } else if str_eq(s, "zh_hk") {
            Ok(FeishuCardLanguage::ZhHK)
        } else if str_eq(s, "zh_tw") {
            Ok(FeishuCardLanguage::ZhTW)
        } else {
            Err("unknown language: ".to_owned().concat(s))
        }
    }
}

/// The first value under `key` in a language-keyed association list.
pub open spec fn lang_lookup<V>(ps: Seq<(FeishuCardLanguage, V)>, key: FeishuCardLanguage) -> Option<
    V,
>
    decreases ps.len(),
{
    if ps.len() == 0 {
        None
    } else if ps[0].0 == key {
        Some(ps[0].1)
    } else {
        lang_lookup(ps.drop_first(), key)
    }
}

/// Language keys are unique in the list.
pub open spec fn lang_keys_unique<V>(ps: Seq<(FeishuCardLanguage, V)>) -> bool {
    forall|a: int, b: int|
        0 <= a < b < ps.len() ==> #[trigger] ps[a].0 != #[trigger] ps[b].0
}

proof fn lemma_lang_lookup_at<V>(ps: Seq<(FeishuCardLanguage, V)>, i: int)
    requires
        lang_keys_unique(ps),
        0 <= i < ps.len(),
    ensures
        lang_lookup(ps, ps[i].0) == Some(ps[i].1),
    decreases i,
{
    if i > 0 {
        assert(ps[0].0 != ps[i].0);
        let rest = ps.drop_first();
        assert forall|a: int, b: int|
            0 <= a < b < rest.len() implies #[trigger] rest[a].0 != #[trigger] rest[b].0 by {
            assert(ps[a + 1].0 != ps[b + 1].0);
        }
        assert(rest[i - 1] == ps[i]);
        lemma_lang_lookup_at(rest, i - 1);
    }
}

proof fn lemma_lang_lookup_none<V>(ps: Seq<(FeishuCardLanguage, V)>, key: FeishuCardLanguage)
    requires
        forall|j: int| 0 <= j < ps.len() ==> #[trigger] ps[j].0 != key,
    ensures
        lang_lookup(ps, key) is None,
    decreases ps.len(),
{
    if ps.len() > 0 {
        let rest = ps.drop_first();
        assert forall|j: int| 0 <= j < rest.len() implies #[trigger] rest[j].0 != key by {
            assert(ps[j + 1].0 != key);
        }
        lemma_lang_lookup_none(rest, key);
    }
}

proof fn lemma_lang_lookup_same<V>(
    ps1: Seq<(FeishuCardLanguage, V)>,
    ps2: Seq<(FeishuCardLanguage, V)>,
    k: FeishuCardLanguage,
)
    requires
        ps1.len() == ps2.len(),
        forall|j: int| 0 <= j < ps1.len() ==> #[trigger] ps1[j].0 == ps2[j].0,
        forall|j: int| 0 <= j < ps1.len() && #[trigger] ps1[j].0 == k ==> ps1[j].1 == ps2[j].1,
    ensures
        lang_lookup(ps2, k) == lang_lookup(ps1, k),
    decreases ps1.len(),
{
    if ps1.len() == 0 {
    } else if ps1[0].0 == k {
        assert(ps1[0].1 == ps2[0].1);
    } else {
        let r1 = ps1.drop_first();
        let r2 = ps2.drop_first();
        assert forall|j: int| 0 <= j < r1.len() implies #[trigger] r1[j].0 == r2[j].0 by {
            assert(ps1[j + 1].0 == ps2[j + 1].0);
        }
        assert forall|j: int|
            0 <= j < r1.len() && #[trigger] r1[j].0 == k implies r1[j].1 == r2[j].1 by {
            assert(ps1[j + 1].0 == r1[j].0);
            assert(ps1[j + 1].1 == ps2[j + 1].1);
        }
        lemma_lang_lookup_same(r1, r2, k);
    }
}

proof fn lemma_lang_lookup_push<V>(
    ps: Seq<(FeishuCardLanguage, V)>,
    pair: (FeishuCardLanguage, V),
    k: FeishuCardLanguage,
)
    requires
        k != pair.0,
    ensures
        lang_lookup(ps.push(pair), k) == lang_lookup(ps, k),
    decreases ps.len(),
{
    let whole = ps.push(pair);
    assert(whole.len() == ps.len() + 1);
    if ps.len() == 0 {
        assert(whole[0] == pair);
        assert(lang_lookup(whole, k) == lang_lookup(whole.drop_first(), k));
        assert(whole.drop_first() =~= Seq::<(FeishuCardLanguage, V)>::empty());
        assert(lang_lookup(Seq::<(FeishuCardLanguage, V)>::empty(), k) is None);
    } else {
        assert(whole[0] == ps[0]);
        if ps[0].0 != k {
            assert(lang_lookup(whole, k) == lang_lookup(whole.drop_first(), k));
            assert(lang_lookup(ps, k) == lang_lookup(ps.drop_first(), k));
            assert(whole.drop_first() =~= ps.drop_first().push(pair));
            lemma_lang_lookup_push(ps.drop_first(), pair, k);
        } else {
            assert(lang_lookup(whole, k) == Some(whole[0].1));
            assert(lang_lookup(ps, k) == Some(ps[0].1));
        }
    }
}

/// Replaces the value under `key`, or appends the pair when the key is new;
/// keys stay unique, other keys keep their values.
fn lang_set<V>(v: &mut Vec<(FeishuCardLanguage, V)>, key: FeishuCardLanguage, val: V)
    requires
        lang_keys_unique(old(v)@),
    ensures
        lang_keys_unique(final(v)@),
        lang_lookup(final(v)@, key) == Some(val),
        forall|k: FeishuCardLanguage|
            k != key ==> #[trigger] lang_lookup(final(v)@, k) == lang_lookup(old(v)@, k),
{
    let n = v.len();
    let mut i: usize = 0;
    while i < n
        invariant
            n == v@.len(),
            i <= n,
            lang_keys_unique(v@),
            v@ == old(v)@,
            forall|j: int| 0 <= j < i ==> #[trigger] v@[j].0 != key,
        decreases n - i,
    {
        if v[i].0 == key {
            let ghost bp = v@;
            v[i] = (key, val);
            proof {
                let up = v@;
                assert(up == bp.update(i as int, up[i as int]));
                assert(up[i as int].0 == key);
                assert(bp[i as int].0 == key);
                assert forall|a: int| 0 <= a < up.len() implies #[trigger] up[a].0 == bp[a].0 by {
                    if a != i as int {
                        assert(up[a] == bp[a]);
                    }
                }
                assert forall|a: int, b: int|
                    0 <= a < b < up.len() implies #[trigger] up[a].0 != #[trigger] up[b].0 by {
                    assert(bp[a].0 != bp[b].0);
                }
                lemma_lang_lookup_at(up, i as int);
                assert forall|k: FeishuCardLanguage| k != key implies #[trigger] lang_lookup(
                    v@,
                    k,
                ) == lang_lookup(old(v)@, k) by {
                    assert forall|j: int|
                        0 <= j < bp.len() && #[trigger] bp[j].0 == k implies bp[j].1
                        == up[j].1 by {
                        if j != i as int {
                            assert(up[j] == bp[j]);
                        }
                    }
                    lemma_lang_lookup_same(bp, up, k);
                }
            }
            return ;
        }
        i = i + 1;
    }
    let ghost bp = v@;
    v.push((key, val));
    proof {
        let up = v@;
        assert(up[n as int].0 == key && up[n as int].1 == val);
        assert forall|a: int, b: int|
            0 <= a < b < up.len() implies #[trigger] up[a].0 != #[trigger] up[b].0 by {
            if b < n as int {
                assert(bp[a].0 != bp[b].0);
            } else {
                assert(up[a] == bp[a]);
                assert(bp[a].0 != key);
            }
        }
        lemma_lang_lookup_at(up, n as int);
        assert forall|k: FeishuCardLanguage| k != key implies #[trigger] lang_lookup(v@, k)
            == lang_lookup(old(v)@, k) by {
            lemma_lang_lookup_push(bp, up[n as int], k);
            assert(bp.push(up[n as int]) =~= up);
        }
    }
}

/// Appends `elem` to the element list of `key`, creating the list when the
/// key is new; keys stay unique, other keys keep their values.
fn lang_push_element(
    v: &mut Vec<(FeishuCardLanguage, Vec<FeishuCardElement>)>,
    key: FeishuCardLanguage,
    elem: FeishuCardElement,
)
    requires
        lang_keys_unique(old(v)@),
    ensures
        lang_keys_unique(final(v)@),
        lang_lookup(final(v)@, key) is Some,
        lang_lookup(final(v)@, key)->0@ == (match lang_lookup(old(v)@, key) {
            Some(es) => es@.push(elem),
            None => seq![elem],
        }),
        forall|k: FeishuCardLanguage|
            k != key ==> #[trigger] lang_lookup(final(v)@, k) == lang_lookup(old(v)@, k),
{
    let n = v.len();
    let mut i: usize = 0;
    while i < n
        invariant
            n == v@.len(),
            i <= n,
            lang_keys_unique(v@),
            v@ == old(v)@,
            forall|j: int| 0 <= j < i ==> #[trigger] v@[j].0 != key,
        decreases n - i,
    {
        if v[i].0 == key {
            proof {
                lemma_lang_lookup_at(v@, i as int);
            }
            let mut pair = v.remove(i);
            pair.1.push(elem);
            let ghost bp = old(v)@;
            let ghost newpair = pair;
            v.insert(i, pair);
            proof {
                let up = v@;
                assert(up =~= bp.update(i as int, newpair));
                assert(up[i as int].0 == key);
                assert forall|a: int| 0 <= a < up.len() implies #[trigger] up[a].0 == bp[a].0 by {
                    if a != i as int {
                        assert(up[a] == bp[a]);
                    }
                }
                assert forall|a: int, b: int|
                    0 <= a < b < up.len() implies #[trigger] up[a].0 != #[trigger] up[b].0 by {
                    assert(bp[a].0 != bp[b].0);
                }
                lemma_lang_lookup_at(up, i as int);
                assert forall|k: FeishuCardLanguage| k != key implies #[trigger] lang_lookup(
                    v@,
                    k,
                ) == lang_lookup(old(v)@, k) by {
                    assert forall|j: int|
                        0 <= j < bp.len() && #[trigger] bp[j].0 == k implies bp[j].1
                        == up[j].1 by {
                        if j != i as int {
                            assert(up[j] == bp[j]);
                        }
                    }
                    lemma_lang_lookup_same(bp, up, k);
                }
            }
            return ;
        }
        i = i + 1;
    }
    proof {
        lemma_lang_lookup_none(v@, key);
    }
    let mut es: Vec<FeishuCardElement> = Vec::new();
    es.push(elem);
    let ghost bp = v@;
    let ghost esv = es;
    v.push((key, es));
    proof {
        let up = v@;
        assert(up[n as int].0 == key && up[n as int].1 == esv);
        assert(esv@ =~= seq![elem]);
        assert forall|a: int, b: int|
            0 <= a < b < up.len() implies #[trigger] up[a].0 != #[trigger] up[b].0 by {
            if b < n as int {
                assert(bp[a].0 != bp[b].0);
            } else {
                assert(up[a] == bp[a]);
                assert(bp[a].0 != key);
            }
        }
        lemma_lang_lookup_at(up, n as int);
        assert forall|k: FeishuCardLanguage| k != key implies #[trigger] lang_lookup(v@, k)
            == lang_lookup(old(v)@, k) by {
            lemma_lang_lookup_push(bp, up[n as int], k);
            assert(bp.push(up[n as int]) =~= up);
        }
    }
}

/// A card: global configuration, a header per language, elements per
/// language.
pub struct FeishuCard {
    pub config: Option<FeishuCardConfig>,
    pub i18n_header: Option<Vec<(FeishuCardLanguage, FeishuCardHeader)>>,
    pub i18n_elements: Option<Vec<(FeishuCardLanguage, Vec<FeishuCardElement>)>>,
}

/// Builds a card: elements and headers are collected per language, under the
/// builder's current language unless one is named explicitly.
pub struct FeishuCardBuilder {
    pub current_language: FeishuCardLanguage,
    pub config: Option<FeishuCardConfig>,
    pub i18n_header: Option<Vec<(FeishuCardLanguage, FeishuCardHeader)>>,
    pub i18n_elements: Option<Vec<(FeishuCardLanguage, Vec<FeishuCardElement>)>>,
}

/// A header with nothing configured.
pub open spec fn is_empty_header(h: FeishuCardHeader) -> bool {
    &&& h.title is None
    &&& h.subtitle is None
    &&& h.icon is None
    &&& h.template is None
    &&& h.text_tag_list is None
    &&& h.i18n_text_tag_list is None
}

impl FeishuCardBuilder {
    /// The language tables hold each language at most once.
    pub open spec fn wf(self) -> bool {
        &&& match self.i18n_header {
            Some(h) => lang_keys_unique(h@),
            None => true,
        }
        &&& match self.i18n_elements {
            Some(e) => lang_keys_unique(e@),
            None => true,
        }
    }

    /// The builder's current language.
    pub open spec fn spec_current_language(self) -> FeishuCardLanguage {
        self.current_language
    }

    /// The header table.
    pub open spec fn spec_headers(self) -> Option<Seq<(FeishuCardLanguage, FeishuCardHeader)>> {
        match self.i18n_header {
            Some(h) => Some(h@),
            None => None,
        }
    }

    /// The element table.
    pub open spec fn spec_elements(self) -> Option<
        Seq<(FeishuCardLanguage, Vec<FeishuCardElement>)>,
    > {
        match self.i18n_elements {
            Some(e) => Some(e@),
            None => None,
        }
    }

    /// A fresh builder: current language Chinese, an empty header and an
    /// empty element list registered under it, no configuration.
    pub fn new() -> (r: FeishuCardBuilder)
        ensures
            r.wf(),
            r.spec_current_language() == FeishuCardLanguage::ZhCN,
            r.config is None,
            r.spec_headers() matches Some(h) && h.len() == 1 && h[0].0 == FeishuCardLanguage::ZhCN
                && is_empty_header(h[0].1),
            r.spec_elements() matches Some(e) && e.len() == 1 && e[0].0
                == FeishuCardLanguage::ZhCN && e[0].1@ == Seq::<FeishuCardElement>::empty(),
    {
        let lng = FeishuCardLanguage::ZhCN;
        let mut header: Vec<(FeishuCardLanguage, FeishuCardHeader)> = Vec::new();
        header.push((lng, FeishuCardHeader::default()));
        let mut elements: Vec<(FeishuCardLanguage, Vec<FeishuCardElement>)> = Vec::new();
        elements.push((lng, Vec::new()));
        FeishuCardBuilder {
            current_language: FeishuCardLanguage::ZhCN,
            config: None,
            i18n_header: Some(header),
            i18n_elements: Some(elements),
        }
    }

    /// Switches the current language; the tag must be one the platform
    /// accepts.
    pub fn current_language(self, language: &str) -> (r: FeishuCardBuilder)
        requires
            valid_language(language@),
        ensures
            r.wf() == self.wf(),
            r.spec_current_language() == parsed_language(language@),
            r.config == self.config,
            r.spec_headers() == self.spec_headers(),
            r.spec_elements() == self.spec_elements(),
    {
        let lng = parse_valid_language(language);
        FeishuCardBuilder { current_language: lng, ..self }
    }

    /// Accepts another language tag: the tag is validated, and the builder
    /// is returned unchanged — entries appear once content is added under
    /// the language.
    pub fn add_language(self, language: &str) -> (r: FeishuCardBuilder)
        requires
            valid_language(language@),
        ensures
            r == self,
    {
        let _lng = parse_valid_language(language);
        self
    }

    /// Sets the global configuration.
    pub fn config(self, config: FeishuCardConfig) -> (r: FeishuCardBuilder)
        ensures
            r.wf() == self.wf(),
            r.config == Some(config),
            r.spec_current_language() == self.spec_current_language(),
            r.spec_headers() == self.spec_headers(),
            r.spec_elements() == self.spec_elements(),
    {
        FeishuCardBuilder { config: Some(config), ..self }
    }

    /// Sets the header of the current language, replacing any previous one.
    pub fn header(self, header: FeishuCardHeader) -> (r: FeishuCardBuilder)
        requires
            self.wf(),
        ensures
            r.wf(),
            r.spec_current_language() == self.spec_current_language(),
            r.config == self.config,
            r.spec_elements() == self.spec_elements(),
            r.spec_headers() matches Some(h) && lang_lookup(h, self.spec_current_language())
                == Some(header),
            forall|k: FeishuCardLanguage|
                k != self.spec_current_language() ==> #[trigger] lookup_header(r, k)
                    == lookup_header(self, k),
    {
        let mut table: Vec<(FeishuCardLanguage, FeishuCardHeader)> = match self.i18n_header {
            Some(t) => t,
            None => Vec::new(),
        };
        lang_set(&mut table, self.current_language, header);
        FeishuCardBuilder { i18n_header: Some(table), ..self }
    }

    /// Replaces the element table wholesale.
    pub fn i18n_element(
        self,
        i18n_element: Vec<(FeishuCardLanguage, Vec<FeishuCardElement>)>,
    ) -> (r: FeishuCardBuilder)
        requires
            lang_keys_unique(i18n_element@),
        ensures
            self.wf() ==> r.wf(),
            r.spec_current_language() == self.spec_current_language(),
            r.config == self.config,
            r.spec_headers() == self.spec_headers(),
            r.spec_elements() == Some(i18n_element@),
    {
        FeishuCardBuilder { i18n_elements: Some(i18n_element), ..self }
    }

    /// Appends an element under the current language.
    pub fn push_element(self, element: FeishuCardElement) -> (r: FeishuCardBuilder)
        requires
            self.wf(),
        ensures
            r.wf(),
            r.spec_current_language() == self.spec_current_language(),
            r.config == self.config,
            r.spec_headers() == self.spec_headers(),
            r.spec_elements() is Some,
            lookup_elements(r, self.spec_current_language()) == Some(
                match lookup_elements(self, self.spec_current_language()) {
                    Some(es) => es.push(element),
                    None => seq![element],
                },
            ),
            forall|k: FeishuCardLanguage|
                k != self.spec_current_language() ==> #[trigger] lookup_elements(r, k)
                    == lookup_elements(self, k),
    {
        let lng = self.current_language;
        self.push_to_language(lng, element)
    }

    /// Appends an element under the named language.
    pub fn push_language_element(self, language: &str, element: FeishuCardElement) -> (r:
        FeishuCardBuilder)
        requires
            self.wf(),
            valid_language(language@),
        ensures
            r.wf(),
            r.spec_current_language() == self.spec_current_language(),
            r.config == self.config,
            r.spec_headers() == self.spec_headers(),
            r.spec_elements() is Some,
            lookup_elements(r, parsed_language(language@)) == Some(
                match lookup_elements(self, parsed_language(language@)) {
                    Some(es) => es.push(element),
                    None => seq![element],
                },
            ),
            forall|k: FeishuCardLanguage|
                k != parsed_language(language@) ==> #[trigger] lookup_elements(r, k)
                    == lookup_elements(self, k),
    {
        let lng = parse_valid_language(language);
        self.push_to_language(lng, element)
    }

    fn push_to_language(self, lng: FeishuCardLanguage, element: FeishuCardElement) -> (r:
        FeishuCardBuilder)
        requires
            self.wf(),
        ensures
            r.wf(),
            r.spec_current_language() == self.spec_current_language(),
            r.config == self.config,
            r.spec_headers() == self.spec_headers(),
            r.spec_elements() is Some,
            lookup_elements(r, lng) == Some(
                match lookup_elements(self, lng) {
                    Some(es) => es.push(element),
                    None => seq![element],
                },
            ),
            forall|k: FeishuCardLanguage|
                k != lng ==> #[trigger] lookup_elements(r, k) == lookup_elements(self, k),
    {
        let mut table: Vec<(FeishuCardLanguage, Vec<FeishuCardElement>)> =
            match self.i18n_elements {
            Some(t) => t,
            None => Vec::new(),
        };
        lang_push_element(&mut table, lng, element);
        FeishuCardBuilder { i18n_elements: Some(table), ..self }
    }

    /// Finishes the card.
    pub fn build(self) -> (r: FeishuCard)
        ensures
            r.config == self.config,
            r.i18n_header == self.i18n_header,
            r.i18n_elements == self.i18n_elements,
    {
        FeishuCard {
            config: self.config,
            i18n_header: self.i18n_header,
            i18n_elements: self.i18n_elements,
        }
    }
}

/// The header registered for a language, as a builder stands.
pub open spec fn lookup_header(b: FeishuCardBuilder, k: FeishuCardLanguage) -> Option<
    FeishuCardHeader,
> {
    match b.spec_headers() {
        Some(h) => lang_lookup(h, k),
        None => None,
    }
}

/// The element views registered for a language, as a builder stands.
pub open spec fn lookup_elements(b: FeishuCardBuilder, k: FeishuCardLanguage) -> Option<
    Seq<FeishuCardElement>,
> {
    match b.spec_elements() {
        Some(e) => match lang_lookup(e, k) {
            Some(es) => Some(es@),
            None => None,
        },
        None => None,
    }
}

/// The parsed value of a valid language tag.
pub open spec fn parsed_language(s: Seq<char>) -> FeishuCardLanguage {
    if s == "zh_cn"@ {
        FeishuCardLanguage::ZhCN
    } else if s == "en_us"@ {
        FeishuCardLanguage::EnUS
    } else if s == "ja_jp"@ {
        FeishuCardLanguage::JaJP
    } else if s == "zh_hk"@ {
        FeishuCardLanguage::ZhHK
    } else {
        FeishuCardLanguage::ZhTW
    }
}

fn parse_valid_language(language: &str) -> (r: FeishuCardLanguage)
    requires
        valid_language(language@),
    ensures
        r == parsed_language(language@),
{
    match FeishuCardLanguage::from_str(language) {
        Ok(l) => l,
        Err(_) => {
            proof {
                assert(false);
            }
            FeishuCardLanguage::ZhCN
        },
    }
}

/// Global behaviour of a card.
pub struct FeishuCardConfig {
    pub enable_forward: Option<bool>,
    pub update_multi: Option<bool>,
    pub width_mode: Option<FeishuCardWidthMode>,
    pub use_custom_translation: Option<bool>,
    pub enable_forward_interaction: Option<bool>,
    pub style: Option<FeishuCardStyle>,
}

/// A configuration with nothing set.
pub open spec fn is_empty_config(c: FeishuCardConfig) -> bool {
    &&& c.enable_forward is None
    &&& c.update_multi is None
    &&& c.width_mode is None
    &&& c.use_custom_translation is None
    &&& c.enable_forward_interaction is None
    &&& c.style is None
}

impl Default for FeishuCardConfig {
    /// A configuration with nothing set.
    fn default() -> (r: FeishuCardConfig)
        ensures
            is_empty_config(r),
    {
        FeishuCardConfig {
            enable_forward: None,
            update_multi: None,
            width_mode: None,
            use_custom_translation: None,
            enable_forward_interaction: None,
            style: None,
        }
    }
}

/// Builds a card configuration field by field.
pub struct FeishuCardConfigBuilder {
    pub config: FeishuCardConfig,
}

impl FeishuCardConfigBuilder {
    /// The configuration as collected so far.
    pub open spec fn spec_config(self) -> FeishuCardConfig {
        self.config
    }

    pub fn new() -> (r: FeishuCardConfigBuilder)
        ensures
            is_empty_config(r.spec_config()),
    {
        FeishuCardConfigBuilder { config: FeishuCardConfig::default() }
    }

    pub fn enable_forward(self, enable_forward: bool) -> (r: FeishuCardConfigBuilder)
        ensures
            r.spec_config() == (FeishuCardConfig {
                enable_forward: Some(enable_forward),
                ..self.spec_config()
            }),
    {
        FeishuCardConfigBuilder {
            config: FeishuCardConfig { enable_forward: Some(enable_forward), ..self.config },
        }
    }

    pub fn update_multi(self, update_multi: bool) -> (r: FeishuCardConfigBuilder)
        ensures
            r.spec_config() == (FeishuCardConfig {
                update_multi: Some(update_multi),
                ..self.spec_config()
            }),
    {
        FeishuCardConfigBuilder {
            config: FeishuCardConfig { update_multi: Some(update_multi), ..self.config },
        }
    }

    pub fn width_mode(self, width_mode: FeishuCardWidthMode) -> (r: FeishuCardConfigBuilder)
        ensures
            r.spec_config() == (FeishuCardConfig {
                width_mode: Some(width_mode),
                ..self.spec_config()
            }),
    {
        FeishuCardConfigBuilder {
            config: FeishuCardConfig { width_mode: Some(width_mode), ..self.config },
        }
    }

    pub fn use_custom_translation(self, use_custom_translation: bool) -> (r:
        FeishuCardConfigBuilder)
        ensures
            r.spec_config() == (FeishuCardConfig {
                use_custom_translation: Some(use_custom_translation),
                ..self.spec_config()
            }),
    {
        FeishuCardConfigBuilder {
            config: FeishuCardConfig {
                use_custom_translation: Some(use_custom_translation),
                ..self.config
            },
        }
    }

    pub fn enable_forward_interaction(self, enable_forward_interaction: bool) -> (r:
        FeishuCardConfigBuilder)
        ensures
            r.spec_config() == (FeishuCardConfig {
                enable_forward_interaction: Some(enable_forward_interaction),
                ..self.spec_config()
            }),
    {
        FeishuCardConfigBuilder {
            config: FeishuCardConfig {
                enable_forward_interaction: Some(enable_forward_interaction),
                ..self.config
            },
        }
    }

    pub fn style(self, style: FeishuCardStyle) -> (r: FeishuCardConfigBuilder)
        ensures
            r.spec_config() == (FeishuCardConfig { style: Some(style), ..self.spec_config() }),
    {
        FeishuCardConfigBuilder { config: FeishuCardConfig { style: Some(style), ..self.config } }
    }

    pub fn build(self) -> (r: FeishuCardConfig)
        ensures
            r == self.spec_config(),
    {
        self.config
    }
}

/// Width behaviour of a card.
#[derive(Clone, Copy, PartialEq, Eq, Structural, Debug)]
pub enum FeishuCardWidthMode {
    /// The platform's default width cap.
    Default,
    /// Follow the screen width.
    Fill,
}

/// Custom text sizes and colors, keyed by name.
pub struct FeishuCardStyle {
    pub text_size: Option<Vec<(String, String)>>,
    pub color: Option<Vec<(String, String)>>,
}

impl FeishuCardStyle {
    /// A style sheet with nothing set.
    pub fn new() -> (r: FeishuCardStyle)
        ensures
            r == (FeishuCardStyle { text_size: None::<Vec<(String, String)>>, color: None::<
                Vec<(String, String)>,
            > }),
    {
        FeishuCardStyle { text_size: None, color: None }
    }
}

/// The header block of a card.
pub struct FeishuCardHeader {
    pub title: Option<FeishuCardTitle>,
    pub subtitle: Option<FeishuCardTitle>,
    pub icon: Option<FeishuCardImage>,
    pub template: Option<FeishuCardHeaderTemplate>,
    pub text_tag_list: Option<Vec<TextTagList>>,
    pub i18n_text_tag_list: Option<Vec<(FeishuCardLanguage, Vec<TextTagList>)>>,
}

impl Default for FeishuCardHeader {
    /// A header with nothing configured.
    fn default() -> (r: FeishuCardHeader)
        ensures
            is_empty_header(r),
    {
        FeishuCardHeader {
            title: None,
            subtitle: None,
            icon: None,
            template: None,
            text_tag_list: None,
            i18n_text_tag_list: None,
        }
    }
}

/// A title: a fixed tag, plain content, or translated content per language.
pub struct FeishuCardTitle {
    pub tag: Option<String>,
    pub content: Option<String>,
    pub i18n: Option<Vec<(FeishuCardLanguage, String)>>,
}

/// A title icon, by the key of an uploaded image.
pub struct FeishuCardImage {
    pub img_key: Option<String>,
}

/// A tag shown beside the title.
pub struct TextTagList {
    pub tag: Option<String>,
    pub text: Option<String>,
    pub color: Option<String>,
}

/// The header's color theme.
#[derive(Clone, Copy, PartialEq, Eq, Structural, Debug)]
pub enum FeishuCardHeaderTemplate {
    Blue,
    Wathet,
    Turquoise,
    Green,
    Yellow,
    Orange,
    Red,
    Carmine,
    Violet,
    Purple,
    Indigo,
    Grey,
    Default,
}

/// The palette for card text.
#[derive(Clone, Copy, PartialEq, Eq, Structural, Debug)]
pub enum MessageCardColor {
    Neutral,
    Blue,
    Turquoise,
    Lime,
    Orange,
    Violet,
    Indigo,
    Wathet,
    Green,
    Yellow,
    Red,
    Purple,
    Carmine,
}

/// One element of a card body. The component trees live outside this core:
/// an element that carries content carries it prepared.
pub enum FeishuCardElement {
    ColumnSet(String),
    Div,
    Markdown(String),
    Hr,
    Img,
    Note,
    Actions,
}

} // verus!
