use vstd::prelude::*;

verus! {

/// One page of search results, in the order the marketplace returned them.
#[derive(Clone, PartialEq)]
pub struct SearchResults {
    pub results: Vec<ResultItem>,
}

/// One listing: a robot and what it costs.
#[derive(Clone, PartialEq)]
pub struct ResultItem {
    pub robot: Robot,
    pub prices: Vec<Price>,
}

/// A price tag: a currency code and an amount in that currency.
#[derive(Clone, Copy, Debug, PartialEq, Eq, Structural)]
pub struct Price {
    pub currency: usize,
    pub amount: usize,
}

/// A robot as the marketplace describes it.
#[allow(non_snake_case)]
#[derive(Clone, PartialEq)]
pub struct Robot {
    pub id: String,
    pub name: String,
    pub creatorId: String,
    pub creatorName: String,
    pub image: String,
    pub baseCpu: usize,
    pub weaponCpu: usize,
    pub cosmeticCpu: usize,
    pub clusterCount: usize,
    pub blockCounts: std::collections::HashMap<usize, usize>,
    pub materialsUsed: Vec<usize>,
}

/// The filters of one search. Every bound is optional; the sort key and the
/// sort direction are always present.
pub struct SearchRequest {
    pub text: Option<String>,
    pub base_minimum_cpu: Option<isize>,
    pub base_maximum_cpu: Option<isize>,
    pub weapon_minimum_cpu: Option<isize>,
    pub weapon_maximum_cpu: Option<isize>,
    pub cosmetic_minimum_cpu: Option<isize>,
    pub cosmetic_maximum_cpu: Option<isize>,
    pub cluster_minimum: Option<isize>,
    pub cluster_maximum: Option<isize>,
    pub date_minimum: Option<String>,
    pub date_maximum: Option<String>,
    pub creator_id: Option<String>,
    pub page: Option<isize>,
    pub count: Option<isize>,
    pub sort_by: String,
    pub order_by: String,
}

/// The mathematical value of a `SearchRequest`: text as character sequences,
/// numbers as integers.
pub ghost struct FilterView {
    pub text: Option<Seq<char>>,
    pub base_minimum_cpu: Option<int>,
    pub base_maximum_cpu: Option<int>,
    pub weapon_minimum_cpu: Option<int>,
    pub weapon_maximum_cpu: Option<int>,
    pub cosmetic_minimum_cpu: Option<int>,
    pub cosmetic_maximum_cpu: Option<int>,
    pub cluster_minimum: Option<int>,
    pub cluster_maximum: Option<int>,
    pub date_minimum: Option<Seq<char>>,
    pub date_maximum: Option<Seq<char>>,
    pub creator_id: Option<Seq<char>>,
    pub page: Option<int>,
    pub count: Option<int>,
    pub sort_by: Seq<char>,
    pub order_by: Seq<char>,
}

pub open spec fn text_view(s: Option<String>) -> Option<Seq<char>> {
    match s {
        Some(t) => Some(t@),
        None => None,
    }
}

pub open spec fn number_view(n: Option<isize>) -> Option<int> {
    match n {
        Some(v) => Some(v as int),
        None => None,
    }
}

impl View for SearchRequest {
    type V = FilterView;

    open spec fn view(&self) -> FilterView {
        FilterView {
            text: text_view(self.text),
            base_minimum_cpu: number_view(self.base_minimum_cpu),
            base_maximum_cpu: number_view(self.base_maximum_cpu),
            weapon_minimum_cpu: number_view(self.weapon_minimum_cpu),
            weapon_maximum_cpu: number_view(self.weapon_maximum_cpu),
            cosmetic_minimum_cpu: number_view(self.cosmetic_minimum_cpu),
            cosmetic_maximum_cpu: number_view(self.cosmetic_maximum_cpu),
            cluster_minimum: number_view(self.cluster_minimum),
            cluster_maximum: number_view(self.cluster_maximum),
            date_minimum: text_view(self.date_minimum),
            date_maximum: text_view(self.date_maximum),
            creator_id: text_view(self.creator_id),
            page: number_view(self.page),
            count: number_view(self.count),
            sort_by: self.sort_by@,
            order_by: self.order_by@,
        }
    }
}

/// The filter a fresh form starts from: nothing set, default sort key,
/// ascending order.
pub open spec fn default_filter() -> FilterView {
    FilterView {
        text: None,
        base_minimum_cpu: None,
        base_maximum_cpu: None,
        weapon_minimum_cpu: None,
        weapon_maximum_cpu: None,
        cosmetic_minimum_cpu: None,
        cosmetic_maximum_cpu: None,
        cluster_minimum: None,
        cluster_maximum: None,
        date_minimum: None,
        date_maximum: None,
        creator_id: None,
        page: None,
        count: None,
        sort_by: seq!['d', 'e', 'f', 'a', 'u', 'l', 't'],
        order_by: seq!['a', 's', 'c', 'e', 'n', 'd', 'i', 'n', 'g'],
    }
}

impl Default for SearchRequest {
    fn default() -> (r: Self)
        ensures
            r@ == default_filter(),
    {
        let r = Self {
            text: None,
            base_minimum_cpu: None,
            base_maximum_cpu: None,
            weapon_minimum_cpu: None,
            weapon_maximum_cpu: None,
            cosmetic_minimum_cpu: None,
            cosmetic_maximum_cpu: None,
            cluster_minimum: None,
            cluster_maximum: None,
            date_minimum: None,
            date_maximum: None,
            creator_id: None,
            page: None,
            count: None,
            sort_by: "default".to_owned(),
            order_by: "ascending".to_owned(),
        };
        proof {
            reveal_strlit("default");
            reveal_strlit("ascending");
        }
        assert(r.sort_by@ =~= default_filter().sort_by);
        assert(r.order_by@ =~= default_filter().order_by);
        r
    }
}


/// The name of one field of a search request on the wire.
#[derive(Clone, Copy, Debug, PartialEq, Eq, Structural)]
pub enum FieldKey {
    Text,
    BaseCpuMinimum,
    BaseCpuMaximum,
    WeaponCpuMinimum,
    WeaponCpuMaximum,
    CosmeticCpuMinimum,
    CosmeticCpuMaximum,
    ClusterMinimum,
    ClusterMaximum,
    DateMinimum,
    DateMaximum,
    CreatorId,
    Page,
    Count,
    SortBy,
    OrderBy,
}

/// How many fields a search request has on the wire.
pub const FIELD_COUNT: usize = 16;

/// The position of a field in the wire order.
pub open spec fn key_index(k: FieldKey) -> int {
    match k {
        FieldKey::Text => 0,
        FieldKey::BaseCpuMinimum => 1,
        FieldKey::BaseCpuMaximum => 2,
        FieldKey::WeaponCpuMinimum => 3,
        FieldKey::WeaponCpuMaximum => 4,
        FieldKey::CosmeticCpuMinimum => 5,
        FieldKey::CosmeticCpuMaximum => 6,
        FieldKey::ClusterMinimum => 7,
        FieldKey::ClusterMaximum => 8,
        FieldKey::DateMinimum => 9,
        FieldKey::DateMaximum => 10,
        FieldKey::CreatorId => 11,
        FieldKey::Page => 12,
        FieldKey::Count => 13,
        FieldKey::SortBy => 14,
        FieldKey::OrderBy => 15,
    }
}

/// The field at a position of the wire order.
pub open spec fn key_at(i: int) -> FieldKey {
    if i == 0 {
        FieldKey::Text
    } else if i == 1 {
        FieldKey::BaseCpuMinimum
    } else if i == 2 {
        FieldKey::BaseCpuMaximum
    } else if i == 3 {
        FieldKey::WeaponCpuMinimum
    } else if i == 4 {
        FieldKey::WeaponCpuMaximum
    } else if i == 5 {
        FieldKey::CosmeticCpuMinimum
    } else if i == 6 {
        FieldKey::CosmeticCpuMaximum
    } else if i == 7 {
        FieldKey::ClusterMinimum
    } else if i == 8 {
        FieldKey::ClusterMaximum
    } else if i == 9 {
        FieldKey::DateMinimum
    } else if i == 10 {
        FieldKey::DateMaximum
    } else if i == 11 {
        FieldKey::CreatorId
    } else if i == 12 {
        FieldKey::Page
    } else if i == 13 {
        FieldKey::Count
    } else if i == 14 {
        FieldKey::SortBy
    } else {
        FieldKey::OrderBy
    }
}

/// The name under which a field travels.
pub open spec fn wire_name_spec(k: FieldKey) -> Seq<char> {
    match k {
        FieldKey::Text => "text"@,
        FieldKey::BaseCpuMinimum => "baseCpuMinimum"@,
        FieldKey::BaseCpuMaximum => "baseCpuMaximum"@,
        FieldKey::WeaponCpuMinimum => "weaponCpuMinimum"@,
        FieldKey::WeaponCpuMaximum => "weaponCpuMaximum"@,
        FieldKey::CosmeticCpuMinimum => "cosmeticCpuMinimum"@,
        FieldKey::CosmeticCpuMaximum => "cosmeticCpuMaximum"@,
        FieldKey::ClusterMinimum => "clusterMinimum"@,
        FieldKey::ClusterMaximum => "clusterMaximum"@,
        FieldKey::DateMinimum => "dateMinimum"@,
        FieldKey::DateMaximum => "dateMaximum"@,
        FieldKey::CreatorId => "creatorId"@,
        FieldKey::Page => "page"@,
        FieldKey::Count => "count"@,
        FieldKey::SortBy => "sortBy"@,
        FieldKey::OrderBy => "orderBy"@,
    }
}

/// The value a filter gives a field, if it sets it.
pub open spec fn field_of(f: FilterView, k: FieldKey) -> Option<WireDatum> {
    match k {
        FieldKey::Text => match f.text {
            Some(s) => Some(WireDatum::Text(s)),
            None => None,
        },
        FieldKey::BaseCpuMinimum => match f.base_minimum_cpu {
            Some(n) => Some(WireDatum::Number(n)),
            None => None,
        },
        FieldKey::BaseCpuMaximum => match f.base_maximum_cpu {
            Some(n) => Some(WireDatum::Number(n)),
            None => None,
        },
        FieldKey::WeaponCpuMinimum => match f.weapon_minimum_cpu {
            Some(n) => Some(WireDatum::Number(n)),
            None => None,
        },
        FieldKey::WeaponCpuMaximum => match f.weapon_maximum_cpu {
            Some(n) => Some(WireDatum::Number(n)),
            None => None,
        },
        FieldKey::CosmeticCpuMinimum => match f.cosmetic_minimum_cpu {
            Some(n) => Some(WireDatum::Number(n)),
            None => None,
        },
        FieldKey::CosmeticCpuMaximum => match f.cosmetic_maximum_cpu {
            Some(n) => Some(WireDatum::Number(n)),
            None => None,
        },
        FieldKey::ClusterMinimum => match f.cluster_minimum {
            Some(n) => Some(WireDatum::Number(n)),
            None => None,
        },
        FieldKey::ClusterMaximum => match f.cluster_maximum {
            Some(n) => Some(WireDatum::Number(n)),
            None => None,
        },
        FieldKey::DateMinimum => match f.date_minimum {
            Some(s) => Some(WireDatum::Text(s)),
            None => None,
        },
        FieldKey::DateMaximum => match f.date_maximum {
            Some(s) => Some(WireDatum::Text(s)),
            None => None,
        },
        FieldKey::CreatorId => match f.creator_id {
            Some(s) => Some(WireDatum::Text(s)),
            None => None,
        },
        FieldKey::Page => match f.page {
            Some(n) => Some(WireDatum::Number(n)),
            None => None,
        },
        FieldKey::Count => match f.count {
            Some(n) => Some(WireDatum::Number(n)),
            None => None,
        },
        FieldKey::SortBy => Some(WireDatum::Text(f.sort_by)),
        FieldKey::OrderBy => Some(WireDatum::Text(f.order_by)),
    }
}

impl FieldKey {
    /// The field at position `i` of the wire order.
    pub fn at(i: usize) -> (r: FieldKey)
        requires
            i < FIELD_COUNT,
        ensures
            r == key_at(i as int),
    {
        match i {
            0 => FieldKey::Text,
            1 => FieldKey::BaseCpuMinimum,
            2 => FieldKey::BaseCpuMaximum,
            3 => FieldKey::WeaponCpuMinimum,
            4 => FieldKey::WeaponCpuMaximum,
            5 => FieldKey::CosmeticCpuMinimum,
            6 => FieldKey::CosmeticCpuMaximum,
            7 => FieldKey::ClusterMinimum,
            8 => FieldKey::ClusterMaximum,
            9 => FieldKey::DateMinimum,
            10 => FieldKey::DateMaximum,
            11 => FieldKey::CreatorId,
            12 => FieldKey::Page,
            13 => FieldKey::Count,
            14 => FieldKey::SortBy,
            _ => FieldKey::OrderBy,
        }
    }

    /// The name under which this field travels.
    pub fn wire_name(&self) -> (r: &'static str)
        ensures
            r@ == wire_name_spec(*self),
    {
        match self {
            FieldKey::Text => "text",
            FieldKey::BaseCpuMinimum => "baseCpuMinimum",
            FieldKey::BaseCpuMaximum => "baseCpuMaximum",
            FieldKey::WeaponCpuMinimum => "weaponCpuMinimum",
            FieldKey::WeaponCpuMaximum => "weaponCpuMaximum",
            FieldKey::CosmeticCpuMinimum => "cosmeticCpuMinimum",
            FieldKey::CosmeticCpuMaximum => "cosmeticCpuMaximum",
            FieldKey::ClusterMinimum => "clusterMinimum",
            FieldKey::ClusterMaximum => "clusterMaximum",
            FieldKey::DateMinimum => "dateMinimum",
            FieldKey::DateMaximum => "dateMaximum",
            FieldKey::CreatorId => "creatorId",
            FieldKey::Page => "page",
            FieldKey::Count => "count",
            FieldKey::SortBy => "sortBy",
            FieldKey::OrderBy => "orderBy",
        }
    }
}

impl SearchRequest {
    /// The value this request gives a field, if it sets it.
    pub fn field(&self, k: FieldKey) -> (r: Option<WireValue>)
        ensures
            match r {
                Some(v) => field_of(self@, k) == Some(v@),
                None => field_of(self@, k) is None,
            },
    {
        match k {
            FieldKey::Text => match &self.text {
                Some(s) => Some(WireValue::Text(s.clone())),
                None => None,
            },
            FieldKey::BaseCpuMinimum => match self.base_minimum_cpu {
                Some(n) => Some(WireValue::Number(n)),
                None => None,
            },
            FieldKey::BaseCpuMaximum => match self.base_maximum_cpu {
                Some(n) => Some(WireValue::Number(n)),
                None => None,
            },
            FieldKey::WeaponCpuMinimum => match self.weapon_minimum_cpu {
                Some(n) => Some(WireValue::Number(n)),
                None => None,
            },
            FieldKey::WeaponCpuMaximum => match self.weapon_maximum_cpu {
                Some(n) => Some(WireValue::Number(n)),
                None => None,
            },
            FieldKey::CosmeticCpuMinimum => match self.cosmetic_minimum_cpu {
                Some(n) => Some(WireValue::Number(n)),
                None => None,
            },
            FieldKey::CosmeticCpuMaximum => match self.cosmetic_maximum_cpu {
                Some(n) => Some(WireValue::Number(n)),
                None => None,
            },
            FieldKey::ClusterMinimum => match self.cluster_minimum {
                Some(n) => Some(WireValue::Number(n)),
                None => None,
            },
            FieldKey::ClusterMaximum => match self.cluster_maximum {
                Some(n) => Some(WireValue::Number(n)),
                None => None,
            },
            FieldKey::DateMinimum => match &self.date_minimum {
                Some(s) => Some(WireValue::Text(s.clone())),
                None => None,
            },
            FieldKey::DateMaximum => match &self.date_maximum {
                Some(s) => Some(WireValue::Text(s.clone())),
                None => None,
            },
            FieldKey::CreatorId => match &self.creator_id {
                Some(s) => Some(WireValue::Text(s.clone())),
                None => None,
            },
            FieldKey::Page => match self.page {
                Some(n) => Some(WireValue::Number(n)),
                None => None,
            },
            FieldKey::Count => match self.count {
                Some(n) => Some(WireValue::Number(n)),
                None => None,
            },
            FieldKey::SortBy => Some(WireValue::Text(self.sort_by.clone())),
            FieldKey::OrderBy => Some(WireValue::Text(self.order_by.clone())),
        }
    }

    /// A copy of this request, field for field.
    pub fn snapshot(&self) -> (r: SearchRequest)
        ensures
            r@ == self@,
    {
        SearchRequest {
            text: copy_text(&self.text),
            base_minimum_cpu: self.base_minimum_cpu,
            base_maximum_cpu: self.base_maximum_cpu,
            weapon_minimum_cpu: self.weapon_minimum_cpu,
            weapon_maximum_cpu: self.weapon_maximum_cpu,
            cosmetic_minimum_cpu: self.cosmetic_minimum_cpu,
            cosmetic_maximum_cpu: self.cosmetic_maximum_cpu,
            cluster_minimum: self.cluster_minimum,
            cluster_maximum: self.cluster_maximum,
            date_minimum: copy_text(&self.date_minimum),
            date_maximum: copy_text(&self.date_maximum),
            creator_id: copy_text(&self.creator_id),
            page: self.page,
            count: self.count,
            sort_by: self.sort_by.clone(),
            order_by: self.order_by.clone(),
        }
    }

    /// The fields this request puts on the wire, in wire order. A field that
    /// is not set is left out altogether.
    pub fn wire_fields(&self) -> (r: Vec<WireField>)
        ensures
            r@.map_values(|w: WireField| w@) == wire_from(self@, 0),
    {
        let mut out: Vec<WireField> = Vec::new();
        let mut i: usize = 0;
        while i < FIELD_COUNT
            invariant
                i <= FIELD_COUNT,
                out@.map_values(|w: WireField| w@) + wire_from(self@, i as int) == wire_from(
                    self@,
                    0,
                ),
            decreases FIELD_COUNT - i,
        {
            let k = FieldKey::at(i);
            let ghost before = out@.map_values(|w: WireField| w@);
            match self.field(k) {
                Some(v) => {
                    out.push(WireField { key: k, value: v });
                },
                None => {},
            }
            assert(out@.map_values(|w: WireField| w@) =~= before + entry(k, field_of(self@, k)));
            assert(wire_from(self@, i as int) == entry(k, field_of(self@, k)) + wire_from(
                self@,
                i + 1,
            ));
            assert(before + wire_from(self@, i as int) =~= (before + entry(k, field_of(self@, k)))
                + wire_from(self@, i + 1));
            i = i + 1;
        }
        assert(wire_from(self@, FIELD_COUNT as int) =~= Seq::empty());
        assert(out@.map_values(|w: WireField| w@) + wire_from(self@, FIELD_COUNT as int)
            =~= out@.map_values(|w: WireField| w@));
        out
    }
}

fn copy_text(s: &Option<String>) -> (r: Option<String>)
    ensures
        text_view(r) == text_view(*s),
{
    match s {
        Some(t) => Some(t.clone()),
        None => None,
    }
}

/// A field value as it travels: text or a whole number.
pub enum WireValue {
    Text(String),
    Number(isize),
}

/// The mathematical value of a `WireValue`.
pub ghost enum WireDatum {
    Text(Seq<char>),
    Number(int),
}

impl View for WireValue {
    type V = WireDatum;

    open spec fn view(&self) -> WireDatum {
        match self {
            WireValue::Text(s) => WireDatum::Text(s@),
            WireValue::Number(n) => WireDatum::Number(*n as int),
        }
    }
}

/// One named field of a request on the wire.
pub struct WireField {
    pub key: FieldKey,
    pub value: WireValue,
}

impl View for WireField {
    type V = (FieldKey, WireDatum);

    open spec fn view(&self) -> (FieldKey, WireDatum) {
        (self.key, self.value@)
    }
}

/// The entry a field contributes: one pair if it is set, none otherwise.
pub open spec fn entry(k: FieldKey, v: Option<WireDatum>) -> Seq<(FieldKey, WireDatum)> {
    match v {
        Some(d) => seq![(k, d)],
        None => Seq::empty(),
    }
}

/// The wire form of a filter from position `i` of the wire order on.
pub open spec fn wire_from(f: FilterView, i: int) -> Seq<(FieldKey, WireDatum)>
    decreases FIELD_COUNT - i,
{
    if i < 0 || i >= FIELD_COUNT {
        Seq::empty()
    } else {
        entry(key_at(i), field_of(f, key_at(i))) + wire_from(f, i + 1)
    }
}

/// The wire form of a filter.
pub open spec fn wire_form(f: FilterView) -> Seq<(FieldKey, WireDatum)> {
    wire_from(f, 0)
}

proof fn lemma_key_round_trip(k: FieldKey)
    ensures
        0 <= key_index(k) < FIELD_COUNT,
        key_at(key_index(k)) == k,
{
}

proof fn lemma_wire_from_members(f: FilterView, i: int)
    requires
        0 <= i <= FIELD_COUNT,
    ensures
        forall|j: int|
            0 <= j < wire_from(f, i).len() ==> key_index(#[trigger] wire_from(f, i)[j].0) >= i
                && field_of(f, wire_from(f, i)[j].0) == Some(wire_from(f, i)[j].1),
        forall|k: FieldKey|
            key_index(k) >= i && (#[trigger] field_of(f, k)) is Some ==> exists|j: int|
                0 <= j < wire_from(f, i).len() && wire_from(f, i)[j].0 == k,
    decreases FIELD_COUNT - i,
{
    if i < FIELD_COUNT {
        lemma_wire_from_members(f, i + 1);
        let k = key_at(i);
        let e = entry(k, field_of(f, k));
        let rest = wire_from(f, i + 1);
        assert(wire_from(f, i) == e + rest);
        assert(key_index(k) == i);
        assert forall|j: int| 0 <= j < wire_from(f, i).len() implies key_index(
            #[trigger] wire_from(f, i)[j].0,
        ) >= i && field_of(f, wire_from(f, i)[j].0) == Some(wire_from(f, i)[j].1) by {
            if j >= e.len() {
                assert(wire_from(f, i)[j] == rest[j - e.len()]);
            }
        }
        assert forall|k2: FieldKey|
            key_index(k2) >= i && (#[trigger] field_of(f, k2)) is Some implies exists|j: int|
                0 <= j < wire_from(f, i).len() && wire_from(f, i)[j].0 == k2 by {
            lemma_key_round_trip(k2);
            if key_index(k2) == i {
                assert(wire_from(f, i)[0].0 == k2);
            } else {
                let j2 = choose|j2: int| 0 <= j2 < rest.len() && rest[j2].0 == k2;
                assert(wire_from(f, i)[j2 + e.len()].0 == k2);
            }
        }
    } else {
        assert forall|k: FieldKey| key_index(k) >= i implies false by {
            lemma_key_round_trip(k);
        }
    }
}

/// A request on the wire names exactly the fields its filter sets, each with
/// the value the filter gives it: a field that is not set never travels, not
/// even as an empty value.
pub proof fn lemma_unset_fields_omitted(f: FilterView)
    ensures
        forall|k: FieldKey|
            (#[trigger] field_of(f, k)) is None ==> forall|j: int|
                0 <= j < wire_form(f).len() ==> wire_form(f)[j].0 != k,
        forall|k: FieldKey|
            (#[trigger] field_of(f, k)) is Some ==> exists|j: int|
                0 <= j < wire_form(f).len() && wire_form(f)[j].0 == k,
        forall|j: int|
            0 <= j < wire_form(f).len() ==> field_of(f, (#[trigger] wire_form(f)[j]).0) == Some(
                wire_form(f)[j].1,
            ),
{
    lemma_wire_from_members(f, 0);
    assert forall|k: FieldKey| (#[trigger] field_of(f, k)) is Some implies exists|j: int|
        0 <= j < wire_form(f).len() && wire_form(f)[j].0 == k by {
        lemma_key_round_trip(k);
    }
}

} // verus!
