//! The status page: the one document that the device serves.

use vstd::prelude::*;

verus! {

/// The text of the page up to its heading.
pub open spec fn page_head() -> Seq<char> {
    "\n<!DOCTYPE html>\n<html>\n    <head>\n        <meta charset=\"utf-8\">\n        <title>esp-rs web server</title>\n    </head>\n    <h1>\n        "@
}

/// The text of the page after its heading.
pub open spec fn page_tail() -> Seq<char> {
    "\n    </h1>\n</html>\n"@
}

/// The page whose heading is `content`.
pub open spec fn page_of(content: Seq<char>) -> Seq<char> {
    page_head() + content + page_tail()
}

/// Sets `content` as the heading of the status page. The content is taken
/// as it is: nothing in it is escaped.
pub fn templated(content: &str) -> (page: String)
    ensures
        page@ == page_of(content@),
{
    let mut page = String::from_str(
        "\n<!DOCTYPE html>\n<html>\n    <head>\n        <meta charset=\"utf-8\">\n        <title>esp-rs web server</title>\n    </head>\n    <h1>\n        ",
    );
    page.append(content);
    page.append("\n    </h1>\n</html>\n");
    page
}

} // verus!
