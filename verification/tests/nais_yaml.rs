use nais_build::nais_yaml::{
    candidate_names, detect_nais_yaml, has_candidate_name, DirEntry, Error,
};

fn entry(dir: &str, name: &str) -> DirEntry {
    DirEntry { file_name: name.to_string(), path: format!("{}/{}", dir, name) }
}

#[test]
fn candidate_names_are_the_known_manifest_names() {
    let names = candidate_names();
    assert_eq!(names.len(), 18);
    assert_eq!(names[0], ".nais.yaml");
    assert_eq!(names[8], "dev.yml");
    assert_eq!(names[17], "prod.yml");
    for name in names {
        assert!(has_candidate_name(name));
    }
    assert!(!has_candidate_name("dev.yaml"));
    assert!(!has_candidate_name("prod.yaml"));
    assert!(!has_candidate_name("Nais.yaml"));
    assert!(!has_candidate_name("nais.yaml.bak"));
    assert!(!has_candidate_name(""));
}

#[test]
fn manifest_in_the_root_is_found_first() {
    let root = Ok(vec![entry(".", "README.md"), entry(".", "nais.yaml"), entry(".", "nais.yml")]);
    let nais = Ok(vec![entry("./.nais", "dev-gcp.yaml")]);
    assert_eq!(detect_nais_yaml(&root, &nais).unwrap(), "./nais.yaml");
}

#[test]
fn manifest_in_the_nais_directory_is_found() {
    let root = Ok(vec![entry(".", "README.md"), entry(".", "go.mod")]);
    let nais = Ok(vec![entry("./.nais", "notes.txt"), entry("./.nais", "prod-gcp.yml")]);
    assert_eq!(detect_nais_yaml(&root, &nais).unwrap(), "./.nais/prod-gcp.yml");
}

#[test]
fn no_manifest_is_an_error() {
    let root = Ok(vec![entry(".", "README.md")]);
    let nais = Ok(vec![entry("./.nais", "notes.txt")]);
    assert!(matches!(detect_nais_yaml(&root, &nais), Err(Error::NaisYamlNotFound)));
    assert!(matches!(detect_nais_yaml(&Ok(vec![]), &Ok(vec![])), Err(Error::NaisYamlNotFound)));
}

#[test]
fn a_nais_directory_that_cannot_be_listed_holds_nothing() {
    let root = Ok(vec![entry(".", "nais.yaml")]);
    let nais = Err("No such file or directory".to_string());
    assert_eq!(detect_nais_yaml(&root, &nais).unwrap(), "./nais.yaml");
    let root = Ok(vec![entry(".", "README.md")]);
    assert!(matches!(detect_nais_yaml(&root, &nais), Err(Error::NaisYamlNotFound)));
}

#[test]
fn a_root_that_cannot_be_listed_is_an_error() {
    let root = Err("Permission denied".to_string());
    let nais = Ok(vec![entry("./.nais", "dev.yml")]);
    match detect_nais_yaml(&root, &nais) {
        Err(Error::FileSystem(err)) => assert_eq!(err, "Permission denied"),
        _ => panic!("a root that cannot be listed was searched"),
    }
}
