use gz_fuel::{FuelClient, FuelModel, DEFAULT_URL};
use std::path::PathBuf;

fn entry(name: &str) -> FuelModel {
    FuelModel {
        created_at: "2020-01-01T00:00:00Z".to_string(),
        updated_at: "2020-01-02T00:00:00Z".to_string(),
        name: name.to_string(),
        owner: "OpenRobotics".to_string(),
        description: "a model".to_string(),
        likes: 1,
        downloads: 2,
        filesize: 3,
        upload_date: "2020-01-01T00:00:00Z".to_string(),
        modify_date: "2020-01-02T00:00:00Z".to_string(),
        license_id: 4,
        license_name: "CC0".to_string(),
        license_url: "http://example.org/cc0".to_string(),
        license_image: "http://example.org/cc0.png".to_string(),
        permission: 0,
        url_name: name.to_string(),
        private: false,
        tags: vec!["a".to_string()],
        categories: vec![],
    }
}

#[test]
fn default_client_points_at_the_public_service() {
    let client = FuelClient::default();
    assert_eq!(DEFAULT_URL, "https://fuel.gazebosim.org/1.0/");
    assert_eq!(client.url, "https://fuel.gazebosim.org/1.0/");
    assert_eq!(client.cache_path, None);
    assert_eq!(client.models, None);
    assert_eq!(client.token, None);
}

#[test]
fn cache_location_prefers_the_given_path() {
    let given = PathBuf::from("/data/cache.json");
    let fallback = PathBuf::from("/home/u/.cache/open-robotics/gz-fuel/model_cache.json");
    assert_eq!(
        FuelClient::cache_location(Some(given.clone()), Some(fallback.clone())),
        Some(given.clone())
    );
    assert_eq!(FuelClient::cache_location(Some(given.clone()), None), Some(given));
    assert_eq!(FuelClient::cache_location(None, Some(fallback.clone())), Some(fallback));
    assert_eq!(FuelClient::cache_location(None, None), None);
}

#[test]
fn with_cache_takes_location_and_catalog() {
    let path = PathBuf::from("/data/cache.json");
    let client = FuelClient::default().with_cache(Some(path.clone()), Some(vec![entry("box")]));
    assert_eq!(client.cache_path, Some(path));
    assert_eq!(client.models, Some(vec![entry("box")]));
    assert_eq!(client.url, DEFAULT_URL);
    assert_eq!(client.token, None);
}

#[test]
fn with_cache_and_nothing_loaded_drops_the_catalog_held() {
    let first = PathBuf::from("/data/cache.json");
    let second = PathBuf::from("/data/other.json");
    let client = FuelClient::default().with_cache(Some(first), Some(vec![entry("box")]));
    let client = client.with_cache(Some(second.clone()), None);
    assert_eq!(client.cache_path, Some(second));
    assert_eq!(client.models, None);
}

#[test]
fn with_cache_without_location_changes_nothing() {
    let path = PathBuf::from("/data/cache.json");
    let mut client = FuelClient::default().with_cache(Some(path.clone()), Some(vec![entry("box")]));
    client.token = Some("secret".to_string());
    let client = client.with_cache(None, Some(vec![entry("ball")]));
    assert_eq!(client.cache_path, Some(path));
    assert_eq!(client.models, Some(vec![entry("box")]));
    assert_eq!(client.token, Some("secret".to_string()));
}

#[test]
fn model_clone_is_equal_in_every_field() {
    let mut model = entry("box");
    model.tags = vec!["x".to_string(), "y".to_string()];
    model.categories = vec!["c".to_string()];
    model.private = true;
    let copy = model.clone();
    assert_eq!(copy, model);
    assert_eq!(copy.tags, vec!["x".to_string(), "y".to_string()]);
    assert_eq!(copy.categories, vec!["c".to_string()]);
    assert_eq!(copy.filesize, 3);
}

#[test]
fn default_cache_subpath_names_two_folders_and_the_file() {
    assert_eq!(
        FuelClient::default_cache_subpath(),
        vec!["open-robotics", "gz-fuel", "model_cache.json"]
    );
    let mut path = PathBuf::from("cache");
    for name in FuelClient::default_cache_subpath() {
        path.push(name);
    }
    assert_eq!(
        path,
        PathBuf::from("cache").join("open-robotics").join("gz-fuel").join("model_cache.json")
    );
}

#[test]
fn client_clone_is_equal_in_every_field() {
    let mut client = FuelClient::default()
        .with_cache(Some(PathBuf::from("/data/cache.json")), Some(vec![entry("box"), entry("ball")]));
    client.token = Some("t".to_string());
    client.url = "http://localhost/".to_string();
    let copy = client.clone();
    assert_eq!(copy.url, "http://localhost/");
    assert_eq!(copy.cache_path, Some(PathBuf::from("/data/cache.json")));
    assert_eq!(copy.models, Some(vec![entry("box"), entry("ball")]));
    assert_eq!(copy.token, Some("t".to_string()));
}

#[test]
fn lists_are_copied_item_for_item() {
    let list = vec!["b".to_string(), "a".to_string(), "b".to_string()];
    assert_eq!(gz_fuel::model::clone_texts(&list), list);
    assert_eq!(gz_fuel::model::clone_texts(&vec![]), Vec::<String>::new());
    let models = vec![entry("x"), entry("y")];
    assert_eq!(gz_fuel::model::clone_models(&models), models);
    assert_eq!(gz_fuel::model::clone_models(&vec![]), vec![]);
}
