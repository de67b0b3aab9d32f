use crf_search::api::{FieldKey, SearchRequest, WireField, WireValue};
use crf_search::search::{numeric_input, ChangeMessage, NumericField, SearchComponent};

fn names(fields: &[WireField]) -> Vec<&'static str> {
    fields.iter().map(|f| f.key.wire_name()).collect()
}

fn text_of(v: &WireValue) -> Option<&str> {
    match v {
        WireValue::Text(s) => Some(s.as_str()),
        WireValue::Number(_) => None,
    }
}

fn number_of(v: &WireValue) -> Option<isize> {
    match v {
        WireValue::Text(_) => None,
        WireValue::Number(n) => Some(*n),
    }
}

#[test]
fn default_request_sets_only_sort_and_order() {
    let r = SearchRequest::default();
    assert!(r.text.is_none());
    assert!(r.base_minimum_cpu.is_none());
    assert!(r.page.is_none());
    assert!(r.count.is_none());
    assert_eq!(r.sort_by, "default");
    assert_eq!(r.order_by, "ascending");
}

#[test]
fn unset_fields_never_travel() {
    let fields = SearchRequest::default().wire_fields();
    assert_eq!(names(&fields), vec!["sortBy", "orderBy"]);
    assert_eq!(text_of(&fields[0].value), Some("default"));
    assert_eq!(text_of(&fields[1].value), Some("ascending"));
}

#[test]
fn spider_filter_wire_form() {
    let mut r = SearchRequest::default();
    r.text = Some("spider".to_string());
    r.base_minimum_cpu = Some(10);
    let fields = r.wire_fields();
    assert_eq!(names(&fields), vec!["text", "baseCpuMinimum", "sortBy", "orderBy"]);
    assert_eq!(fields[0].key, FieldKey::Text);
    assert_eq!(text_of(&fields[0].value), Some("spider"));
    assert_eq!(fields[1].key, FieldKey::BaseCpuMinimum);
    assert_eq!(number_of(&fields[1].value), Some(10));
}

#[test]
fn every_field_set_travels_in_order() {
    let r = SearchRequest {
        text: Some("t".to_string()),
        base_minimum_cpu: Some(1),
        base_maximum_cpu: Some(2),
        weapon_minimum_cpu: Some(3),
        weapon_maximum_cpu: Some(4),
        cosmetic_minimum_cpu: Some(5),
        cosmetic_maximum_cpu: Some(6),
        cluster_minimum: Some(-7),
        cluster_maximum: Some(8),
        date_minimum: Some("2023-01-01".to_string()),
        date_maximum: Some("2023-12-31".to_string()),
        creator_id: Some("c0ffee".to_string()),
        page: Some(2),
        count: Some(50),
        sort_by: "cpuPower".to_string(),
        order_by: "descending".to_string(),
    };
    let fields = r.wire_fields();
    assert_eq!(
        names(&fields),
        vec![
            "text", "baseCpuMinimum", "baseCpuMaximum", "weaponCpuMinimum", "weaponCpuMaximum",
            "cosmeticCpuMinimum", "cosmeticCpuMaximum", "clusterMinimum", "clusterMaximum",
            "dateMinimum", "dateMaximum", "creatorId", "page", "count", "sortBy", "orderBy",
        ]
    );
    assert_eq!(number_of(&fields[7].value), Some(-7));
    assert_eq!(text_of(&fields[11].value), Some("c0ffee"));
    assert_eq!(number_of(&fields[13].value), Some(50));
    assert_eq!(text_of(&fields[15].value), Some("descending"));
}

#[test]
fn snapshot_copies_every_field() {
    let mut r = SearchRequest::default();
    r.creator_id = Some("abc".to_string());
    r.count = Some(3);
    let s = r.snapshot();
    assert_eq!(s.creator_id.as_deref(), Some("abc"));
    assert_eq!(s.count, Some(3));
    assert_eq!(s.sort_by, "default");
}

#[test]
fn edit_sets_only_its_field() {
    let mut form = SearchComponent::create();
    assert!(form.update(ChangeMessage::SetText("spider".to_string())).is_none());
    assert!(form.update(ChangeMessage::SetWeaponMaximumCpu(40)).is_none());
    assert!(form.update(ChangeMessage::SetOrderBy("descending".to_string())).is_none());
    let r = form.request();
    assert_eq!(r.text.as_deref(), Some("spider"));
    assert_eq!(r.weapon_maximum_cpu, Some(40));
    assert!(r.weapon_minimum_cpu.is_none());
    assert!(r.base_minimum_cpu.is_none());
    assert_eq!(r.sort_by, "default");
    assert_eq!(r.order_by, "descending");
    assert!(form.error().is_none());
}

#[test]
fn click_search_hands_back_current_filter() {
    let mut form = SearchComponent::create();
    form.update(ChangeMessage::SetPage(3));
    form.update(ChangeMessage::SetDateMinimum("2023-05-01".to_string()));
    let sent = form.update(ChangeMessage::ClickSearchButton).expect("a search starts");
    assert_eq!(sent.page, Some(3));
    assert_eq!(sent.date_minimum.as_deref(), Some("2023-05-01"));
    assert_eq!(form.request().page, Some(3));
    assert!(form.update(ChangeMessage::NoOp).is_none());
}

#[test]
fn clear_restores_fresh_filter() {
    let mut form = SearchComponent::create();
    form.update(ChangeMessage::SetClusterMinimum(5));
    form.update(ChangeMessage::SetSortBy("price".to_string()));
    form.update(ChangeMessage::Clear);
    let r = form.request();
    assert!(r.cluster_minimum.is_none());
    assert_eq!(r.sort_by, "default");
    assert_eq!(r.order_by, "ascending");
}

#[test]
fn search_error_shown_then_dismissed() {
    let mut form = SearchComponent::create();
    form.update(ChangeMessage::SearchError("network down".to_string()));
    assert_eq!(form.error().as_deref(), Some("network down"));
    form.update(ChangeMessage::ClickErrorX);
    assert!(form.error().is_none());
}

#[test]
fn non_numeric_input_is_ignored() {
    let mut form = SearchComponent::create();
    form.input_number(NumericField::BaseMinimumCpu, "12");
    for raw in ["abc", "", "-", "+", "12a", " 7", "1_000", "99999999999999999999"] {
        form.input_number(NumericField::BaseMinimumCpu, raw);
        assert_eq!(form.request().base_minimum_cpu, Some(12));
        assert!(form.error().is_none());
        assert!(numeric_input(NumericField::BaseMinimumCpu, raw).is_none());
    }
}

#[test]
fn numeric_input_sets_its_field() {
    let mut form = SearchComponent::create();
    form.input_number(NumericField::CosmeticMaximumCpu, "+25");
    form.input_number(NumericField::Count, "-3");
    form.input_number(NumericField::ClusterMaximum, "007");
    let r = form.request();
    assert_eq!(r.cosmetic_maximum_cpu, Some(25));
    assert_eq!(r.count, Some(-3));
    assert_eq!(r.cluster_maximum, Some(7));
    assert!(r.cosmetic_minimum_cpu.is_none());
    match numeric_input(NumericField::Page, "42") {
        Some(ChangeMessage::SetPage(42)) => {},
        _ => panic!("expected a page message"),
    }
}
