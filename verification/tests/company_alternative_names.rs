use tmdb_api::company::alternative_names::CompanyAlternativeName;
use tmdb_api::company::alternative_names::CompanyAlternativeNames;
use tmdb_api::company::alternative_names::CompanyAlternativeNamesResult;

#[test]
fn path_holds_the_company_id() {
    let cmd = CompanyAlternativeNames::new(1);
    assert_eq!(cmd.path(), "/company/1/alternative_names");
}

#[test]
fn path_of_a_large_id() {
    let cmd = CompanyAlternativeNames::new(18446744073709551615);
    assert_eq!(cmd.path(), "/company/18446744073709551615/alternative_names");
}

#[test]
fn no_query_parameters() {
    let cmd = CompanyAlternativeNames::new(1);
    assert!(cmd.params().is_empty());
}

#[test]
fn new_keeps_the_id() {
    let cmd = CompanyAlternativeNames::new(42);
    assert_eq!(cmd.company_id, 42);
}

#[test]
fn default_company_id_is_zero() {
    let cmd = CompanyAlternativeNames::default();
    assert_eq!(cmd.company_id, 0);
    assert_eq!(cmd.path(), "/company/0/alternative_names");
}

#[test]
fn alternative_name_with_a_kind() {
    let name = CompanyAlternativeName::new("Lucasfilm Ltd.".to_string(), "common".to_string());
    assert_eq!(name.name, "Lucasfilm Ltd.");
    assert_eq!(name.kind.as_deref(), Some("common"));
}

#[test]
fn alternative_name_with_an_empty_kind() {
    let name = CompanyAlternativeName::new("Lucasfilm".to_string(), String::new());
    assert_eq!(name.name, "Lucasfilm");
    assert_eq!(name.kind, None);
}

#[test]
fn company_result_holds_its_fields() {
    let result = CompanyAlternativeNamesResult {
        id: 1,
        results: vec![CompanyAlternativeName::new(
            "Lucasfilm".to_string(),
            String::new(),
        )],
    };
    assert_eq!(result.id, 1);
    assert_eq!(result.results.len(), 1);
    assert_eq!(result.results[0].name, "Lucasfilm");
}
