use pymodule::paths::{module_init_file, site_packages_path};

#[test]
fn site_packages_path_builds_the_venv_path() {
    let p = site_packages_path("./venv", "python3.11");
    assert_eq!(p, "./venv/lib/python3.11/site-packages");
}

#[test]
fn site_packages_path_keeps_both_parts() {
    let p = site_packages_path("/opt/env", "python3.9");
    assert_eq!(p, "/opt/env/lib/python3.9/site-packages");
}

#[test]
fn module_init_file_appends_the_entry_name() {
    let p = module_init_file("./my-module");
    assert_eq!(p, "./my-module/__init__.py");
}

#[test]
fn module_init_file_on_empty_directory_name() {
    let p = module_init_file("");
    assert_eq!(p, "/__init__.py");
}
