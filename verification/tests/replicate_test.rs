use loadtest_core::replicate::{
    Config, batch_dir_name, replace, replicate_file_name, replicate_suffix, transform_line,
};
use loadtest_core::replicator;

#[test]
fn config_needs_three_arguments() {
    let few: Vec<String> = vec!["prog".to_string(), "2".to_string(), "src".to_string()];
    match Config::build(&few) {
        Err(m) => assert_eq!(m, "not enough arguments"),
        Ok(_) => panic!("three arguments are too few"),
    }

    let enough: Vec<String> =
        vec!["prog".to_string(), "2".to_string(), "in".to_string(), "out".to_string()];
    let c = Config::build(&enough).expect("four arguments are enough");
    assert_eq!(c.dup_size, "2");
    assert_eq!(c.src, "in");
    assert_eq!(c.dst, "out");
}

#[test]
fn replicator_config_needs_three_arguments() {
    let few: Vec<String> = vec!["prog".to_string()];
    match replicator::Config::build(&few) {
        Err(m) => assert_eq!(m, "not enough arguments"),
        Ok(_) => panic!("one argument is too few"),
    }

    let enough: Vec<String> =
        vec!["prog".to_string(), "3".to_string(), "in".to_string(), "out".to_string()];
    let c = replicator::Config::build(&enough).expect("four arguments are enough");
    assert_eq!(c.replicator, "3");
    assert_eq!(c.src, "in");
    assert_eq!(c.dst, "out");
    let run = replicator::Replication::new(c);
    assert_eq!(run.config.dst, "out");
}

#[test]
fn file_name_keeps_extensions_after_insert() {
    assert_eq!(
        replicate_file_name("ubi9-minimal-9.3-830.json", ".blah"),
        "ubi9-minimal-9.blah.3-830.json"
    );
    assert_eq!(replicate_file_name("noextension", ".replicate1"), "noextension.replicate1");
    assert_eq!(replicate_file_name("a.b", ".r2"), "a.r2.b");
}

#[test]
fn replace_amends_the_value_part() {
    assert_eq!(
        replace("  \"name\": \"fixture\",", "replicate", 3),
        "  \"name\": \"fixture-replicate3\","
    );
    // without a trailing `",` in the value part nothing changes
    assert_eq!(replace("  \"name\": \"fixture\"", "replicate", 3), "  \"name\": \"fixture\"");
}

#[test]
fn transform_rewrites_identity_lines_only() {
    assert_eq!(
        transform_line("  \"name\": \"doc\",", 1),
        "  \"name\": \"doc-replicate1\","
    );
    assert_eq!(
        transform_line("    \"serialNumber\": \"urn:x\",", 2),
        "    \"serialNumber\": \"urn:x-replicate2\","
    );
    assert_eq!(transform_line("  \"created\": \"2024\",", 7), "  \"created\": \"2024\",");
    assert_eq!(transform_line("plain line", 7), "plain line");
}

#[test]
fn batch_names_carry_the_index() {
    assert_eq!(batch_dir_name(0), "batch0");
    assert_eq!(batch_dir_name(12), "batch12");
    assert_eq!(replicate_suffix(4), ".replicate4");
}

#[test]
fn metadata_stub_is_an_empty_key_list() {
    assert_eq!(replicator::metadata_content(), "{\n  \"keys\": []\n}");
}
