use gz_fuel::{FuelClient, FuelModel};

fn model(name: &str, owner: &str, private: bool, tags: &[&str]) -> FuelModel {
    FuelModel {
        created_at: "2019-01-01T00:00:00Z".to_string(),
        updated_at: "2019-01-01T00:00:00Z".to_string(),
        name: name.to_string(),
        owner: owner.to_string(),
        description: "d".to_string(),
        likes: 5,
        downloads: 6,
        filesize: 7,
        upload_date: "2019-01-01T00:00:00Z".to_string(),
        modify_date: "2019-01-01T00:00:00Z".to_string(),
        license_id: 8,
        license_name: "l".to_string(),
        license_url: "u".to_string(),
        license_image: "i".to_string(),
        permission: 9,
        url_name: name.to_string(),
        private,
        tags: tags.iter().map(|tag| tag.to_string()).collect(),
        categories: vec![],
    }
}

fn holding(models: Vec<FuelModel>) -> FuelClient {
    let mut client = FuelClient::default();
    client.models = Some(models);
    client
}

fn names(models: &Option<Vec<FuelModel>>) -> Option<Vec<String>> {
    models.as_ref().map(|list| list.iter().map(|m| m.name.clone()).collect())
}

fn strs(list: &[&str]) -> Option<Vec<String>> {
    Some(list.iter().map(|text| text.to_string()).collect())
}

fn catalog() -> Vec<FuelModel> {
    vec![
        model("m0", "Bob", false, &["robot", "arm"]),
        model("m1", "alice", true, &["robot"]),
        model("m2", "Alice", false, &[]),
        model("m3", "Bob", true, &["Arm", "table"]),
        model("m4", "alice", false, &["arm", "robot"]),
    ]
}

#[test]
fn by_owner_matches_the_exact_text_and_keeps_order() {
    let client = holding(catalog());
    assert_eq!(names(&client.models_by_owner(None, "Bob")), strs(&["m0", "m3"]));
    assert_eq!(names(&client.models_by_owner(None, "alice")), strs(&["m1", "m4"]));
    assert_eq!(names(&client.models_by_owner(None, "Alice")), strs(&["m2"]));
    assert_eq!(names(&client.models_by_owner(None, "bob")), strs(&[]));
    assert_eq!(names(&client.models_by_owner(None, "")), strs(&[]));
}

#[test]
fn by_owner_returns_whole_records() {
    let client = holding(catalog());
    assert_eq!(
        client.models_by_owner(None, "Alice"),
        Some(vec![model("m2", "Alice", false, &[])])
    );
}

#[test]
fn by_private_splits_the_catalog_in_order() {
    let client = holding(catalog());
    assert_eq!(names(&client.models_by_private(None, true)), strs(&["m1", "m3"]));
    assert_eq!(names(&client.models_by_private(None, false)), strs(&["m0", "m2", "m4"]));
}

#[test]
fn by_tag_matches_the_exact_tag_and_keeps_order() {
    let client = holding(catalog());
    assert_eq!(names(&client.models_by_tag(None, "robot")), strs(&["m0", "m1", "m4"]));
    assert_eq!(names(&client.models_by_tag(None, "arm")), strs(&["m0", "m4"]));
    assert_eq!(names(&client.models_by_tag(None, "Arm")), strs(&["m3"]));
    assert_eq!(names(&client.models_by_tag(None, "rob")), strs(&[]));
    assert_eq!(names(&client.models_by_tag(None, "")), strs(&[]));
}

#[test]
fn a_given_catalog_is_read_in_place_of_the_one_held() {
    let client = holding(catalog());
    let given = vec![model("g0", "Bob", true, &["x"]), model("g1", "Carol", true, &["robot"])];
    assert_eq!(names(&client.models_by_owner(Some(&given), "Bob")), strs(&["g0"]));
    assert_eq!(names(&client.models_by_private(Some(&given), true)), strs(&["g0", "g1"]));
    assert_eq!(names(&client.models_by_tag(Some(&given), "robot")), strs(&["g1"]));
}

#[test]
fn a_given_catalog_serves_a_client_that_holds_none() {
    let client = FuelClient::default();
    let given = vec![model("g0", "Bob", true, &["x"])];
    assert_eq!(names(&client.models_by_owner(Some(&given), "Bob")), strs(&["g0"]));
    assert_eq!(names(&client.models_by_private(Some(&given), false)), strs(&[]));
    assert_eq!(names(&client.models_by_tag(Some(&given), "x")), strs(&["g0"]));
}

#[test]
fn no_catalog_at_all_gives_no_answer() {
    let client = FuelClient::default();
    assert_eq!(client.models_by_owner(None, "Bob"), None);
    assert_eq!(client.models_by_private(None, true), None);
    assert_eq!(client.models_by_tag(None, "robot"), None);
    assert_eq!(client.get_owners(), None);
    assert_eq!(client.get_tags(), None);
}

#[test]
fn an_empty_catalog_gives_empty_answers() {
    let client = holding(vec![]);
    assert_eq!(client.models_by_owner(None, "Bob"), Some(vec![]));
    assert_eq!(client.models_by_private(None, true), Some(vec![]));
    assert_eq!(client.models_by_tag(None, "robot"), Some(vec![]));
    assert_eq!(client.get_owners(), Some(vec![]));
    assert_eq!(client.get_tags(), Some(vec![]));
}

#[test]
fn queries_leave_the_catalog_as_it_was() {
    let client = holding(catalog());
    let _ = client.models_by_owner(None, "Bob");
    let _ = client.models_by_tag(None, "robot");
    let _ = client.models_by_private(None, true);
    let _ = client.get_owners();
    let _ = client.get_tags();
    assert_eq!(client.models, Some(catalog()));
}

#[test]
fn owners_differing_in_case_are_both_listed_in_first_seen_order() {
    let client = holding(vec![
        model("a", "Bob", false, &[]),
        model("b", "alice", false, &[]),
        model("c", "Alice", false, &[]),
    ]);
    assert_eq!(client.get_owners(), strs(&["alice", "Alice", "Bob"]));
    let client = holding(vec![
        model("a", "Bob", false, &[]),
        model("b", "Alice", false, &[]),
        model("c", "alice", false, &[]),
    ]);
    assert_eq!(client.get_owners(), strs(&["Alice", "alice", "Bob"]));
}

#[test]
fn owners_are_listed_once_each() {
    let client = holding(catalog());
    assert_eq!(client.get_owners(), strs(&["alice", "Alice", "Bob"]));
}

#[test]
fn owners_are_sorted_by_lower_case_form_not_by_code_point() {
    let client = holding(vec![
        model("a", "B", false, &[]),
        model("b", "a", false, &[]),
        model("c", "C", false, &[]),
    ]);
    // by code point the capitals would come first: B, C, a
    assert_eq!(client.get_owners(), strs(&["a", "B", "C"]));
}

#[test]
fn tags_are_flattened_listed_once_and_sorted_caselessly() {
    let client = holding(catalog());
    // first seen: robot, arm, Arm, table
    assert_eq!(client.get_tags(), strs(&["arm", "Arm", "robot", "table"]));
}

#[test]
fn tags_repeated_within_one_model_are_listed_once() {
    let client = holding(vec![
        model("a", "o", false, &["z", "y", "z"]),
        model("b", "o", false, &["y", "X"]),
    ]);
    assert_eq!(client.get_tags(), strs(&["X", "y", "z"]));
}

#[test]
fn listing_has_no_duplicates_and_is_ascending() {
    let client = holding(vec![
        model("a", "delta", false, &["t3", "T1"]),
        model("b", "Charlie", false, &["t2", "t1"]),
        model("c", "bravo", false, &["T2"]),
        model("d", "Alpha", false, &[]),
        model("e", "charlie", false, &["t3"]),
        model("f", "delta", false, &["t0"]),
    ]);
    let owners = client.get_owners().unwrap();
    assert_eq!(owners, vec!["Alpha", "bravo", "Charlie", "charlie", "delta"]);
    let tags = client.get_tags().unwrap();
    assert_eq!(tags, vec!["t0", "T1", "t1", "t2", "T2", "t3"]);
    for list in [owners, tags] {
        for j in 0..list.len() {
            for k in (j + 1)..list.len() {
                assert_ne!(list[j], list[k]);
                assert!(list[j].to_lowercase() <= list[k].to_lowercase());
            }
        }
    }
}

#[test]
fn distinct_owners_reads_the_catalog_given() {
    let given = vec![
        model("a", "zed", false, &[]),
        model("b", "Yan", false, &[]),
        model("c", "zed", false, &[]),
        model("d", "xi", false, &[]),
    ];
    assert_eq!(gz_fuel::query::distinct_owners(&given), vec!["xi", "Yan", "zed"]);
    assert_eq!(gz_fuel::query::distinct_owners(&vec![]), Vec::<String>::new());
}

#[test]
fn distinct_tags_reads_the_catalog_given() {
    let given = vec![
        model("a", "o", false, &["wheel", "Base"]),
        model("b", "o", false, &[]),
        model("c", "o", false, &["base", "wheel", "arm"]),
    ];
    assert_eq!(gz_fuel::query::distinct_tags(&given), vec!["arm", "Base", "base", "wheel"]);
    assert_eq!(gz_fuel::query::distinct_tags(&vec![]), Vec::<String>::new());
}

#[test]
fn listing_keeps_texts_as_they_are_written() {
    // the lower-case form serves the comparison only
    let client = holding(vec![model("a", "OpenRobotics", false, &["URDF"])]);
    assert_eq!(client.get_owners(), strs(&["OpenRobotics"]));
    assert_eq!(client.get_tags(), strs(&["URDF"]));
}

#[test]
fn selection_of_a_large_catalog_keeps_the_order_of_the_catalog() {
    let mut models = Vec::new();
    for n in 0..200u32 {
        let owner = if n % 3 == 0 { "three" } else { "other" };
        let tag = if n % 5 == 0 { "five" } else { "rest" };
        models.push(model(&format!("m{}", n), owner, n % 2 == 0, &[tag]));
    }
    let client = holding(models.clone());
    let by_owner = client.models_by_owner(None, "three").unwrap();
    let by_tag = client.models_by_tag(None, "five").unwrap();
    let by_private = client.models_by_private(None, true).unwrap();
    let expect_owner: Vec<FuelModel> = models.iter().filter(|m| m.owner == "three").cloned().collect();
    let expect_tag: Vec<FuelModel> =
        models.iter().filter(|m| m.tags.contains(&"five".to_string())).cloned().collect();
    let expect_private: Vec<FuelModel> = models.iter().filter(|m| m.private).cloned().collect();
    assert_eq!(by_owner, expect_owner);
    assert_eq!(by_tag, expect_tag);
    assert_eq!(by_private, expect_private);
    assert_eq!(by_owner.len(), 67);
    assert_eq!(by_tag.len(), 40);
    assert_eq!(by_private.len(), 100);
}
