use rcli::{file_page, render_listing, Entry, Lookup};

fn entry(path: &str, name: &str) -> Entry {
    Entry { path: path.to_string(), name: name.to_string() }
}

#[test]
fn missing_path_is_not_found() {
    let page = file_page("./nothing.txt", Lookup::Missing);
    assert_eq!(page.status, 404);
    assert_eq!(page.body, "File ./nothing.txt not found");
}

#[test]
fn test_file_handler() {
    let content = "[package]\nname = \"rcli\"\n".to_string();
    let page = file_page("./Cargo.toml", Lookup::File(content));
    assert_eq!(page.status, 200);
    assert!(page.body.trim().starts_with("[package]"));
}

#[test]
fn file_is_given_as_it_is() {
    let page = file_page("./notes.txt", Lookup::File(" kept\tas it is \n".to_string()));
    assert_eq!(page.status, 200);
    assert_eq!(page.body, " kept\tas it is \n");
    let page = file_page("./empty.txt", Lookup::File(String::new()));
    assert_eq!(page.status, 200);
    assert_eq!(page.body, "");
}

#[test]
fn failure_to_read_is_an_error_of_the_server() {
    let page = file_page("./secret", Lookup::Failed("Permission denied (os error 13)".to_string()));
    assert_eq!(page.status, 500);
    assert_eq!(page.body, "Permission denied (os error 13)");
}

#[test]
fn directory_is_listed_entry_by_entry() {
    let entries = vec![entry("\"./src\"", "\"src\""), entry("\"./a b\"", "\"a b\"")];
    let page = file_page(".", Lookup::Directory(entries));
    assert_eq!(page.status, 200);
    assert_eq!(
        page.body,
        "<html><body><ul>\
         <li><a href=\"\"./src\"\">\"src\"</li>\
         <li><a href=\"\"./a b\"\">\"a b\"</li>\
         </ul></body></html>"
    );
}

#[test]
fn empty_directory_has_an_empty_list() {
    assert_eq!(render_listing(&Vec::new()), "<html><body><ul></ul></body></html>");
    let page = file_page("./empty", Lookup::Directory(Vec::new()));
    assert_eq!(page.status, 200);
    assert_eq!(page.body, "<html><body><ul></ul></body></html>");
}
