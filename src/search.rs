use vstd::prelude::*;
use crate::api::{default_filter, FilterView, SearchRequest};

verus! {

/// What the search form is told: an edit of one filter field, a click, or
/// the failure of a search it started.
pub enum ChangeMessage {
    NoOp,
    ClickSearchButton,
    ClickErrorX,
    SearchError(String),
    SetText(String),
    SetBaseMinimumCpu(isize),
    SetBaseMaximumCpu(isize),
    SetWeaponMinimumCpu(isize),
    SetWeaponMaximumCpu(isize),
    SetCosmeticMinimumCpu(isize),
    SetCosmeticMaximumCpu(isize),
    SetClusterMinimum(isize),
    SetClusterMaximum(isize),
    SetDateMinimum(String),
    SetDateMaximum(String),
    SetPage(isize),
    SetCount(isize),
    SetSortBy(String),
    SetOrderBy(String),
    Clear,
}

/// The state of the search form: the filter being edited and the message of
/// the last failed search, if it has not been dismissed.
pub struct SearchComponent {
    request: SearchRequest,
    error: Option<String>,
}

/// The mathematical value of the search form.
pub ghost struct FormView {
    pub request: FilterView,
    pub error: Option<Seq<char>>,
}

impl View for SearchComponent {
    type V = FormView;

    closed spec fn view(&self) -> FormView {
        FormView {
            request: self.request@,
            error: match self.error {
                Some(e) => Some(e@),
                None => None,
            },
        }
    }
}

/// The filter after one message: an edit sets exactly its own field, `Clear`
/// restores the fresh filter, everything else leaves the filter alone.
pub open spec fn filter_after(f: FilterView, msg: ChangeMessage) -> FilterView {
    match msg {
        ChangeMessage::SetText(t) => FilterView { text: Some(t@), ..f },
        ChangeMessage::SetBaseMinimumCpu(n) => FilterView { base_minimum_cpu: Some(n as int), ..f },
        ChangeMessage::SetBaseMaximumCpu(n) => FilterView { base_maximum_cpu: Some(n as int), ..f },
        ChangeMessage::SetWeaponMinimumCpu(n) => FilterView { weapon_minimum_cpu: Some(n as int), ..f },
        ChangeMessage::SetWeaponMaximumCpu(n) => FilterView { weapon_maximum_cpu: Some(n as int), ..f },
        ChangeMessage::SetCosmeticMinimumCpu(n) => FilterView { cosmetic_minimum_cpu: Some(n as int), ..f },
        ChangeMessage::SetCosmeticMaximumCpu(n) => FilterView { cosmetic_maximum_cpu: Some(n as int), ..f },
        ChangeMessage::SetClusterMinimum(n) => FilterView { cluster_minimum: Some(n as int), ..f },
        ChangeMessage::SetClusterMaximum(n) => FilterView { cluster_maximum: Some(n as int), ..f },
        ChangeMessage::SetPage(n) => FilterView { page: Some(n as int), ..f },
        ChangeMessage::SetCount(n) => FilterView { count: Some(n as int), ..f },
        ChangeMessage::SetDateMinimum(d) => FilterView { date_minimum: Some(d@), ..f },
        ChangeMessage::SetDateMaximum(d) => FilterView { date_maximum: Some(d@), ..f },
        ChangeMessage::SetSortBy(s) => FilterView { sort_by: s@, ..f },
        ChangeMessage::SetOrderBy(s) => FilterView { order_by: s@, ..f },
        ChangeMessage::Clear => default_filter(),
        _ => f,
    }
}

/// The error message after one message: a failed search sets it, a click on
/// its close button clears it, everything else leaves it alone.
pub open spec fn error_after(e: Option<Seq<char>>, msg: ChangeMessage) -> Option<Seq<char>> {
    match msg {
        ChangeMessage::SearchError(m) => Some(m@),
        ChangeMessage::ClickErrorX => None,
        _ => e,
    }
}

/// The form after one message.
pub open spec fn form_after(s: FormView, msg: ChangeMessage) -> FormView {
    FormView { request: filter_after(s.request, msg), error: error_after(s.error, msg) }
}

/// Whether a message starts a search.
pub open spec fn starts_search(msg: ChangeMessage) -> bool {
    msg is ClickSearchButton
}

impl SearchComponent {
    /// A fresh form: the default filter and no error.
    pub fn create() -> (r: Self)
        ensures
            r@ == (FormView { request: default_filter(), error: None }),
    {
        SearchComponent { request: SearchRequest::default(), error: None }
    }

    /// The filter being edited.
    pub fn request(&self) -> (r: &SearchRequest)
        ensures
            r@ == self@.request,
    {
        &self.request
    }

    /// The message of the last failed search, if it is still shown.
    pub fn error(&self) -> (r: Option<String>)
        ensures
            match r {
                Some(e) => self@.error == Some(e@),
                None => self@.error is None,
            },
    {
        match &self.error {
            Some(e) => Some(e.clone()),
            None => None,
        }
    }

    /// Applies one message. On a click of the search button the form is left
    /// as it is and the filter to send is handed back; no other message
    /// starts a search.
    pub fn update(&mut self, msg: ChangeMessage) -> (r: Option<SearchRequest>)
        ensures
            final(self)@ == form_after(old(self)@, msg),
            match r {
                Some(q) => starts_search(msg) && q@ == old(self)@.request,
                None => !starts_search(msg),
            },
    {
        match msg {
            ChangeMessage::NoOp => None,
            ChangeMessage::ClickSearchButton => Some(self.request.snapshot()),
            ChangeMessage::ClickErrorX => {
                self.error = None;
                None
            },
            ChangeMessage::SearchError(e) => {
                self.error = Some(e);
                None
            },
            ChangeMessage::SetText(t) => {
                self.request.text = Some(t);
                None
            },
            ChangeMessage::SetBaseMinimumCpu(n) => {
                self.request.base_minimum_cpu = Some(n);
                None
            },
            ChangeMessage::SetBaseMaximumCpu(n) => {
                self.request.base_maximum_cpu = Some(n);
                None
            },
            ChangeMessage::SetWeaponMinimumCpu(n) => {
                self.request.weapon_minimum_cpu = Some(n);
                None
            },
            ChangeMessage::SetWeaponMaximumCpu(n) => {
                self.request.weapon_maximum_cpu = Some(n);
                None
            },
            ChangeMessage::SetCosmeticMinimumCpu(n) => {
                self.request.cosmetic_minimum_cpu = Some(n);
                None
            },
            ChangeMessage::SetCosmeticMaximumCpu(n) => {
                self.request.cosmetic_maximum_cpu = Some(n);
                None
            },
            ChangeMessage::SetClusterMinimum(n) => {
                self.request.cluster_minimum = Some(n);
                None
            },
            ChangeMessage::SetClusterMaximum(n) => {
                self.request.cluster_maximum = Some(n);
                None
            },
            ChangeMessage::SetPage(n) => {
                self.request.page = Some(n);
                None
            },
            ChangeMessage::SetCount(n) => {
                self.request.count = Some(n);
                None
            },
            ChangeMessage::SetDateMinimum(d) => {
                self.request.date_minimum = Some(d);
                None
            },
            ChangeMessage::SetDateMaximum(d) => {
                self.request.date_maximum = Some(d);
                None
            },
            ChangeMessage::SetSortBy(s) => {
                self.request.sort_by = s;
                None
            },
            ChangeMessage::SetOrderBy(s) => {
                self.request.order_by = s;
                None
            },
            ChangeMessage::Clear => {
                self.request = SearchRequest::default();
                None
            },
        }
    }
}


/// A numeric field of the form.
#[derive(Clone, Copy, Debug, PartialEq, Eq, Structural)]
pub enum NumericField {
    BaseMinimumCpu,
    BaseMaximumCpu,
    WeaponMinimumCpu,
    WeaponMaximumCpu,
    CosmeticMinimumCpu,
    CosmeticMaximumCpu,
    ClusterMinimum,
    ClusterMaximum,
    Page,
    Count,
}

/// The message that sets a numeric field to a value.
pub open spec fn number_message(field: NumericField, n: isize) -> ChangeMessage {
    match field {
        NumericField::BaseMinimumCpu => ChangeMessage::SetBaseMinimumCpu(n),
        NumericField::BaseMaximumCpu => ChangeMessage::SetBaseMaximumCpu(n),
        NumericField::WeaponMinimumCpu => ChangeMessage::SetWeaponMinimumCpu(n),
        NumericField::WeaponMaximumCpu => ChangeMessage::SetWeaponMaximumCpu(n),
        NumericField::CosmeticMinimumCpu => ChangeMessage::SetCosmeticMinimumCpu(n),
        NumericField::CosmeticMaximumCpu => ChangeMessage::SetCosmeticMaximumCpu(n),
        NumericField::ClusterMinimum => ChangeMessage::SetClusterMinimum(n),
        NumericField::ClusterMaximum => ChangeMessage::SetClusterMaximum(n),
        NumericField::Page => ChangeMessage::SetPage(n),
        NumericField::Count => ChangeMessage::SetCount(n),
    }
}

pub open spec fn is_ascii_digit(c: char) -> bool {
    '0' <= c && c <= '9'
}

/// One or more ASCII digits and nothing else.
pub open spec fn all_digits(s: Seq<char>) -> bool {
    s.len() > 0 && forall|i: int| 0 <= i < s.len() ==> is_ascii_digit(#[trigger] s[i])
}

/// The value of a run of decimal digits.
pub open spec fn digits_value(s: Seq<char>) -> int
    decreases s.len(),
{
    if s.len() == 0 {
        0
    } else {
        digits_value(s.drop_last()) * 10 + (s.last() as u32 - '0' as u32)
    }
}

/// The integer a text spells in decimal: an optional `+` or `-` followed by
/// one or more ASCII digits. Any other text spells none.
pub open spec fn decimal_value(s: Seq<char>) -> Option<int> {
    if s.len() > 0 && s[0] == '-' && all_digits(s.drop_first()) {
        Some(-digits_value(s.drop_first()))
    } else if s.len() > 0 && s[0] == '+' && all_digits(s.drop_first()) {
        Some(digits_value(s.drop_first()))
    } else if all_digits(s) {
        Some(digits_value(s))
    } else {
        None
    }
}

/// The `isize` a text spells in decimal, if it spells one within range.
pub open spec fn parsed_isize(s: Seq<char>) -> Option<isize> {
    match decimal_value(s) {
        Some(v) => if isize::MIN <= v && v <= isize::MAX {
            Some(v as isize)
        } else {
            None
        },
        None => None,
    }
}

/// Relies on `str::parse::<isize>` (`isize::from_str`, radix 10): it accepts
/// an optional `+` or `-` followed by ASCII digits only, and fails on an empty
/// text, on any other character and on a value out of range.
#[verifier::external_body]
fn parse_isize(s: &str) -> (r: Option<isize>)
    ensures
        r == parsed_isize(s@),
{
    s.parse::<isize>().ok()
}

/// The message that raw input typed into a numeric field gives: the field set
/// to the number it spells, or no message at all when it spells none.
pub fn numeric_input(field: NumericField, raw: &str) -> (r: Option<ChangeMessage>)
    ensures
        match parsed_isize(raw@) {
            Some(n) => r == Some(number_message(field, n)),
            None => r is None,
        },
{
    match parse_isize(raw) {
        Some(n) => Some(
            match field {
                NumericField::BaseMinimumCpu => ChangeMessage::SetBaseMinimumCpu(n),
                NumericField::BaseMaximumCpu => ChangeMessage::SetBaseMaximumCpu(n),
                NumericField::WeaponMinimumCpu => ChangeMessage::SetWeaponMinimumCpu(n),
                NumericField::WeaponMaximumCpu => ChangeMessage::SetWeaponMaximumCpu(n),
                NumericField::CosmeticMinimumCpu => ChangeMessage::SetCosmeticMinimumCpu(n),
                NumericField::CosmeticMaximumCpu => ChangeMessage::SetCosmeticMaximumCpu(n),
                NumericField::ClusterMinimum => ChangeMessage::SetClusterMinimum(n),
                NumericField::ClusterMaximum => ChangeMessage::SetClusterMaximum(n),
                NumericField::Page => ChangeMessage::SetPage(n),
                NumericField::Count => ChangeMessage::SetCount(n),
            },
        ),
        None => None,
    }
}

/// The form after raw input is typed into a numeric field.
pub open spec fn form_after_input(s: FormView, field: NumericField, raw: Seq<char>) -> FormView {
    match parsed_isize(raw) {
        Some(n) => form_after(s, number_message(field, n)),
        None => s,
    }
}

impl SearchComponent {
    /// Takes raw input typed into a numeric field. Input that spells no
    /// number is ignored.
    pub fn input_number(&mut self, field: NumericField, raw: &str)
        ensures
            final(self)@ == form_after_input(old(self)@, field, raw@),
    {
        match numeric_input(field, raw) {
            Some(msg) => {
                let _ = self.update(msg);
            },
            None => {},
        }
    }
}

/// Input that spells no number, typed into a numeric field, changes neither
/// the filter nor the error message: no field is touched and no error is
/// reported.
pub proof fn lemma_non_numeric_input_ignored(s: FormView, field: NumericField, raw: Seq<char>)
    requires
        parsed_isize(raw) is None,
    ensures
        form_after_input(s, field, raw).request == s.request,
        form_after_input(s, field, raw).error == s.error,
{
}

} // verus!
