use compound_report::cli::{filter_names, name_is_numeric, no_conformers_message,
    no_result_message, no_valid_names_message, plan_run, usage_message, RunPlan};
use compound_report::numtext::{i32_to_string, parse_i32, parse_u32, u32_to_string,
    u64_to_string};
use compound_report::query::{build_url, default_base_url, default_return_type};

#[test]
fn numeric_like_names_are_filtered_in_order() {
    let names = vec![
        "123".to_string(),
        "Aspirin".to_string(),
        "45.6".to_string(),
        "Glucose".to_string(),
    ];
    let kept = filter_names(&names);
    assert_eq!(kept, vec!["Aspirin".to_string(), "Glucose".to_string()]);
}

#[test]
fn name_classification() {
    assert!(name_is_numeric("123"));
    assert!(name_is_numeric("45.6"));
    assert!(name_is_numeric(""));
    assert!(!name_is_numeric("Aspirin"));
    assert!(!name_is_numeric("2-propanol"));
}

#[test]
fn no_arguments_prints_usage() {
    let args: Vec<String> = vec![];
    assert!(matches!(plan_run(&args), RunPlan::Usage));
    assert_eq!(
        usage_message(),
        "usage: compound_report <compound-name> [<compound-name> ...]"
    );
}

#[test]
fn all_numeric_arguments_report_no_valid_names() {
    let args = vec!["123".to_string(), "4.5".to_string()];
    assert!(matches!(plan_run(&args), RunPlan::NoValidNames));
    assert_eq!(
        no_valid_names_message(),
        "error: none of the given names is a valid compound name"
    );
}

#[test]
fn valid_names_are_queried_in_order() {
    let args = vec!["123".to_string(), "Aspirin".to_string(), "Glucose".to_string()];
    match plan_run(&args) {
        RunPlan::Query(names) => {
            assert_eq!(names, vec!["Aspirin".to_string(), "Glucose".to_string()]);
        }
        _ => panic!("expected a query plan"),
    }
}

#[test]
fn diagnostic_messages() {
    assert_eq!(no_result_message("Aspirin"), "no result for this query: Aspirin");
    assert_eq!(no_conformers_message(), "No conformers available for plotting.");
}

#[test]
fn url_is_base_name_suffix() {
    let url = build_url("https://example.test/compound/", "Aspirin", "/JSON");
    assert_eq!(url, "https://example.test/compound/Aspirin/JSON");
    assert_eq!(
        default_base_url(),
        "https://pubchem.ncbi.nlm.nih.gov/rest/pug/compound/name/"
    );
    assert_eq!(default_return_type(), "/JSON");
}

#[test]
fn integers_render_exactly() {
    assert_eq!(u32_to_string(0), "0");
    assert_eq!(u32_to_string(4294967295), "4294967295");
    assert_eq!(u64_to_string(1234567890), "1234567890");
    assert_eq!(i32_to_string(-45), "-45");
    assert_eq!(i32_to_string(0), "0");
    assert_eq!(i32_to_string(i32::MIN), "-2147483648");
}

#[test]
fn integers_parse_exactly() {
    assert_eq!(parse_u32("0"), Some(0));
    assert_eq!(parse_u32("4294967295"), Some(4294967295));
    assert_eq!(parse_u32("4294967296"), None);
    assert_eq!(parse_u32(""), None);
    assert_eq!(parse_u32("12a"), None);
    assert_eq!(parse_u32("1.5"), None);
    assert_eq!(parse_i32("-2147483648"), Some(i32::MIN));
    assert_eq!(parse_i32("-2147483649"), None);
    assert_eq!(parse_i32("2147483647"), Some(i32::MAX));
    assert_eq!(parse_i32("-"), None);
}
