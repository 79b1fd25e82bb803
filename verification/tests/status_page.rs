use ota_provision::status_page::templated;

#[test]
fn page_holds_the_content_as_heading() {
    let page = templated("2.5 L/min");
    let expected = "\n<!DOCTYPE html>\n<html>\n    <head>\n        <meta charset=\"utf-8\">\n        <title>esp-rs web server</title>\n    </head>\n    <h1>\n        2.5 L/min\n    </h1>\n</html>\n";
    assert_eq!(page, expected);
}

#[test]
fn page_of_no_content() {
    let page = templated("");
    assert!(page.starts_with("\n<!DOCTYPE html>"));
    assert!(page.ends_with("<h1>\n        \n    </h1>\n</html>\n"));
}
