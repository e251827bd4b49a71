//! HTML fragments: a page frame, a navigation bar, a table, a form and an
//! alert. Texts are put into the markup as they are given.

use vstd::prelude::*;
use vstd::string::StringExecFns;

verus! {

// The fixed parts of the markup, named after what follows each of them.

pub const PAGE_OPEN: &'static str =
    "<!DOCTYPE html>\n<html lang=\"en\">\n<head>\n    <meta charset=\"UTF-8\">\n    <meta name=\"viewport\" content=\"width=device-width, initial-scale=1.0\">\n    <title>";

pub const PAGE_HEAD_CLOSE: &'static str =
    " - Pact Web</title>\n    <script src=\"https://cdn.tailwindcss.com\"></script>\n</head>\n<body class=\"bg-gray-50 min-h-screen\">\n    ";

pub const PAGE_MAIN_OPEN: &'static str =
    "\n    <main class=\"max-w-4xl mx-auto py-8 px-4\">\n        ";

pub const PAGE_CLOSE: &'static str = "\n    </main>\n</body>\n</html>";

pub const SITE_TITLE: &'static str = "Pact Web";

pub const LINK_OPEN: &'static str = "<a href=\"";

pub const LINK_LABEL: &'static str =
    "\" class=\"text-gray-300 hover:text-white px-3 py-2 text-sm font-medium\">";

pub const LINK_CLOSE: &'static str = "</a>";

pub const NAV_OPEN: &'static str =
    "<nav class=\"bg-gray-800\">\n    <div class=\"max-w-4xl mx-auto px-4 py-3 flex items-center justify-between\">\n        <span class=\"text-white font-bold text-lg\">";

pub const NAV_LINKS: &'static str = "</span>\n        <div class=\"flex space-x-4\">";

pub const NAV_CLOSE: &'static str = "</div>\n    </div>\n</nav>";

pub const HEADER_CELL_OPEN: &'static str =
    "<th class=\"px-6 py-3 text-left text-xs font-medium text-gray-500 uppercase tracking-wider\">";

pub const HEADER_CELL_CLOSE: &'static str = "</th>";

pub const CELL_OPEN: &'static str =
    "<td class=\"px-6 py-4 whitespace-nowrap text-sm text-gray-900\">";

pub const CELL_CLOSE: &'static str = "</td>";

pub const ROW_OPEN: &'static str = "<tr class=\"hover:bg-gray-50\">";

pub const ROW_CLOSE: &'static str = "</tr>";

pub const TABLE_OPEN: &'static str =
    "<div class=\"overflow-hidden shadow ring-1 ring-black ring-opacity-5 rounded-lg\">\n    <table class=\"min-w-full divide-y divide-gray-300\">\n        <thead class=\"bg-gray-50\">\n            <tr>";

pub const TABLE_BODY: &'static str =
    "</tr>\n        </thead>\n        <tbody class=\"divide-y divide-gray-200 bg-white\">";

pub const TABLE_CLOSE: &'static str = "</tbody>\n    </table>\n</div>";

pub const FIELD_OPEN: &'static str = "<div class=\"mb-4\">\n    <label for=\"";

pub const FIELD_LABEL: &'static str =
    "\" class=\"block text-sm font-medium text-gray-700 mb-1\">";

pub const FIELD_TYPE: &'static str = "</label>\n    <input type=\"";

pub const FIELD_NAME: &'static str = "\" name=\"";

pub const FIELD_ID: &'static str = "\" id=\"";

pub const FIELD_CLOSE: &'static str =
    "\"\n        class=\"block w-full rounded-md border-gray-300 shadow-sm focus:border-indigo-500 focus:ring-indigo-500 sm:text-sm px-3 py-2 border\"\n        required>\n</div>";

pub const FORM_OPEN: &'static str = "<form method=\"POST\" action=\"";

pub const FORM_FIELDS: &'static str =
    "\" class=\"bg-white shadow rounded-lg p-6 max-w-md\">\n    ";

pub const FORM_CLOSE: &'static str =
    "\n    <button type=\"submit\"\n        class=\"w-full bg-indigo-600 text-white py-2 px-4 rounded-md hover:bg-indigo-700 focus:outline-none focus:ring-2 focus:ring-indigo-500 focus:ring-offset-2 font-medium\">\n        Submit\n    </button>\n</form>";

pub const ALERT_OPEN: &'static str = "<div class=\"";

pub const ALERT_BORDER: &'static str = " border-l-4 ";

pub const ALERT_PARAGRAPH: &'static str = " p-4 mb-4\">\n    <p class=\"";

pub const ALERT_MESSAGE: &'static str = "\">";

pub const ALERT_CLOSE: &'static str = "</p>\n</div>";

/// The texts of a list of string slices.
pub open spec fn str_views(items: Seq<&str>) -> Seq<Seq<char>> {
    items.map_values(|item: &str| item@)
}

/// The texts of a list of strings.
pub open spec fn string_views(items: Seq<String>) -> Seq<Seq<char>> {
    items.map_values(|item: String| item@)
}

/// The texts of the rows of a table.
pub open spec fn row_views(rows: Seq<Vec<String>>) -> Seq<Seq<Seq<char>>> {
    rows.map_values(|row: Vec<String>| string_views(row@))
}

/// The texts of a list of pairs.
pub open spec fn pair_views(items: Seq<(&str, &str)>) -> Seq<(Seq<char>, Seq<char>)> {
    items.map_values(|item: (&str, &str)| (item.0@, item.1@))
}

/// The texts of a list of triples.
pub open spec fn triple_views(items: Seq<(&str, &str, &str)>) -> Seq<
    (Seq<char>, Seq<char>, Seq<char>),
> {
    items.map_values(|item: (&str, &str, &str)| (item.0@, item.1@, item.2@))
}

/// One link of the navigation bar.
pub open spec fn link_text(href: Seq<char>, label: Seq<char>) -> Seq<char> {
    LINK_OPEN@ + href + LINK_LABEL@ + label + LINK_CLOSE@
}

/// The links of the navigation bar, in order, with nothing between them.
pub open spec fn links_text(links: Seq<(Seq<char>, Seq<char>)>) -> Seq<char>
    decreases links.len(),
{
    if links.len() == 0 {
        Seq::empty()
    } else {
        links_text(links.drop_last()) + link_text(links.last().0, links.last().1)
    }
}

/// The navigation bar: a title, then the links.
pub open spec fn nav_text(title: Seq<char>, links: Seq<(Seq<char>, Seq<char>)>) -> Seq<char> {
    NAV_OPEN@ + title + NAV_LINKS@ + links_text(links) + NAV_CLOSE@
}

/// The links that every page carries.
pub open spec fn site_links() -> Seq<(Seq<char>, Seq<char>)> {
    seq![("/"@, "Users"@), ("/users/new"@, "New User"@)]
}

/// A whole page: the head with the title, the navigation bar, the body.
pub open spec fn page_text(title: Seq<char>, body: Seq<char>) -> Seq<char> {
    PAGE_OPEN@ + title + PAGE_HEAD_CLOSE@ + nav_text(SITE_TITLE@, site_links()) + PAGE_MAIN_OPEN@
        + body + PAGE_CLOSE@
}

/// The cells of the header row.
pub open spec fn header_cells_text(headers: Seq<Seq<char>>) -> Seq<char>
    decreases headers.len(),
{
    if headers.len() == 0 {
        Seq::empty()
    } else {
        header_cells_text(headers.drop_last()) + HEADER_CELL_OPEN@ + headers.last()
            + HEADER_CELL_CLOSE@
    }
}

/// The cells of one body row.
pub open spec fn cells_text(cells: Seq<Seq<char>>) -> Seq<char>
    decreases cells.len(),
{
    if cells.len() == 0 {
        Seq::empty()
    } else {
        cells_text(cells.drop_last()) + CELL_OPEN@ + cells.last() + CELL_CLOSE@
    }
}

/// The body rows.
pub open spec fn rows_text(rows: Seq<Seq<Seq<char>>>) -> Seq<char>
    decreases rows.len(),
{
    if rows.len() == 0 {
        Seq::empty()
    } else {
        rows_text(rows.drop_last()) + ROW_OPEN@ + cells_text(rows.last()) + ROW_CLOSE@
    }
}

/// A table: one header row, then the body rows.
pub open spec fn table_text(headers: Seq<Seq<char>>, rows: Seq<Seq<Seq<char>>>) -> Seq<char> {
    TABLE_OPEN@ + header_cells_text(headers) + TABLE_BODY@ + rows_text(rows) + TABLE_CLOSE@
}

/// One labelled input of a form.
pub open spec fn field_text(name: Seq<char>, label: Seq<char>, input_type: Seq<char>) -> Seq<
    char,
> {
    FIELD_OPEN@ + name + FIELD_LABEL@ + label + FIELD_TYPE@ + input_type + FIELD_NAME@ + name
        + FIELD_ID@ + name + FIELD_CLOSE@
}

/// The inputs of a form.
pub open spec fn fields_text(fields: Seq<(Seq<char>, Seq<char>, Seq<char>)>) -> Seq<char>
    decreases fields.len(),
{
    if fields.len() == 0 {
        Seq::empty()
    } else {
        fields_text(fields.drop_last()) + field_text(
            fields.last().0,
            fields.last().1,
            fields.last().2,
        )
    }
}

/// A form that posts to `action`: the inputs, then the submit button.
pub open spec fn form_text(action: Seq<char>, fields: Seq<(Seq<char>, Seq<char>, Seq<char>)>) -> Seq<
    char,
> {
    FORM_OPEN@ + action + FORM_FIELDS@ + fields_text(fields) + FORM_CLOSE@
}

/// The three classes that colour an alert: background, border and text.
/// A kind other than `success`, `error` and `warning` is shown as a notice.
pub open spec fn alert_classes(kind: Seq<char>) -> (Seq<char>, Seq<char>, Seq<char>) {
    if kind == "success"@ {
        ("bg-green-50"@, "border-green-400"@, "text-green-700"@)
    } else if kind == "error"@ {
        ("bg-red-50"@, "border-red-400"@, "text-red-700"@)
    } else if kind == "warning"@ {
        ("bg-yellow-50"@, "border-yellow-400"@, "text-yellow-700"@)
    } else {
        ("bg-blue-50"@, "border-blue-400"@, "text-blue-700"@)
    }
}

/// An alert of the given kind with the given message.
pub open spec fn alert_text(kind: Seq<char>, message: Seq<char>) -> Seq<char> {
    ALERT_OPEN@ + alert_classes(kind).0 + ALERT_BORDER@ + alert_classes(kind).1
        + ALERT_PARAGRAPH@ + alert_classes(kind).2 + ALERT_MESSAGE@ + message + ALERT_CLOSE@
}

/// Wraps `body` in a whole page with the given title.
pub fn html_page(title: &str, body: &str) -> (html: String)
    ensures
        html@ == page_text(title@, body@),
{
    let links: [(&str, &str); 2] = [("/", "Users"), ("/users/new", "New User")];
    assert(pair_views(links@) =~= site_links());
    let nav = html_nav(SITE_TITLE, links.as_slice());
    let mut html = PAGE_OPEN.to_owned();
    html.append(title);
    html.append(PAGE_HEAD_CLOSE);
    html.append(nav.as_str());
    html.append(PAGE_MAIN_OPEN);
    html.append(body);
    html.append(PAGE_CLOSE);
    html
}

/// The navigation bar at the top of a page.
pub fn html_nav(title: &str, links: &[(&str, &str)]) -> (html: String)
    ensures
        html@ == nav_text(title@, pair_views(links@)),
{
    let mut html = NAV_OPEN.to_owned();
    html.append(title);
    html.append(NAV_LINKS);
    let ghost start = html@;
    let mut at: usize = 0;
    while at < links.len()
        invariant
            at <= links@.len(),
            html@ == start + links_text(pair_views(links@).take(at as int)),
        decreases links@.len() - at,
    {
        let link = links[at];
        html.append(LINK_OPEN);
        html.append(link.0);
        html.append(LINK_LABEL);
        html.append(link.1);
        html.append(LINK_CLOSE);
        proof {
            let next = pair_views(links@).take(at + 1);
            assert(next.drop_last() =~= pair_views(links@).take(at as int));
            assert(html@ =~= start + links_text(next));
        }
        at += 1;
    }
    assert(pair_views(links@).take(at as int) =~= pair_views(links@));
    html.append(NAV_CLOSE);
    assert(html@ =~= nav_text(title@, pair_views(links@)));
    html
}

/// The cells of one body row of a table.
fn row_cells(cells: &Vec<String>) -> (html: String)
    ensures
        html@ == cells_text(string_views(cells@)),
{
    let mut html = String::new();
    let mut at: usize = 0;
    while at < cells.len()
        invariant
            at <= cells@.len(),
            html@ == cells_text(string_views(cells@).take(at as int)),
        decreases cells@.len() - at,
    {
        html.append(CELL_OPEN);
        html.append(cells[at].as_str());
        html.append(CELL_CLOSE);
        proof {
            let next = string_views(cells@).take(at + 1);
            assert(next.drop_last() =~= string_views(cells@).take(at as int));
            assert(html@ =~= cells_text(next));
        }
        at += 1;
    }
    assert(string_views(cells@).take(at as int) =~= string_views(cells@));
    html
}

/// A table with one header row and the given body rows.
pub fn html_table(headers: &[&str], rows: &[Vec<String>]) -> (html: String)
    ensures
        html@ == table_text(str_views(headers@), row_views(rows@)),
{
    let mut html = TABLE_OPEN.to_owned();
    let ghost start = html@;
    let mut at: usize = 0;
    while at < headers.len()
        invariant
            at <= headers@.len(),
            html@ == start + header_cells_text(str_views(headers@).take(at as int)),
        decreases headers@.len() - at,
    {
        html.append(HEADER_CELL_OPEN);
        html.append(headers[at]);
        html.append(HEADER_CELL_CLOSE);
        proof {
            let next = str_views(headers@).take(at + 1);
            assert(next.drop_last() =~= str_views(headers@).take(at as int));
            assert(html@ =~= start + header_cells_text(next));
        }
        at += 1;
    }
    assert(str_views(headers@).take(at as int) =~= str_views(headers@));
    html.append(TABLE_BODY);
    let ghost middle = html@;
    let mut row: usize = 0;
    while row < rows.len()
        invariant
            row <= rows@.len(),
            html@ == middle + rows_text(row_views(rows@).take(row as int)),
        decreases rows@.len() - row,
    {
        let cells = row_cells(&rows[row]);
        html.append(ROW_OPEN);
        html.append(cells.as_str());
        html.append(ROW_CLOSE);
        proof {
            let next = row_views(rows@).take(row + 1);
            assert(next.drop_last() =~= row_views(rows@).take(row as int));
            assert(html@ =~= middle + rows_text(next));
        }
        row += 1;
    }
    assert(row_views(rows@).take(row as int) =~= row_views(rows@));
    html.append(TABLE_CLOSE);
    assert(html@ =~= table_text(str_views(headers@), row_views(rows@)));
    html
}

/// A form that posts its fields to `action`. Each field is given as its
/// name, its label and the type of its input.
pub fn html_form(action: &str, fields: &[(&str, &str, &str)]) -> (html: String)
    ensures
        html@ == form_text(action@, triple_views(fields@)),
{
    let mut html = FORM_OPEN.to_owned();
    html.append(action);
    html.append(FORM_FIELDS);
    let ghost start = html@;
    let mut at: usize = 0;
    while at < fields.len()
        invariant
            at <= fields@.len(),
            html@ == start + fields_text(triple_views(fields@).take(at as int)),
        decreases fields@.len() - at,
    {
        let field = fields[at];
        html.append(FIELD_OPEN);
        html.append(field.0);
        html.append(FIELD_LABEL);
        html.append(field.1);
        html.append(FIELD_TYPE);
        html.append(field.2);
        html.append(FIELD_NAME);
        html.append(field.0);
        html.append(FIELD_ID);
        html.append(field.0);
        html.append(FIELD_CLOSE);
        proof {
            let next = triple_views(fields@).take(at + 1);
            assert(next.drop_last() =~= triple_views(fields@).take(at as int));
            assert(html@ =~= start + fields_text(next));
        }
        at += 1;
    }
    assert(triple_views(fields@).take(at as int) =~= triple_views(fields@));
    html.append(FORM_CLOSE);
    assert(html@ =~= form_text(action@, triple_views(fields@)));
    html
}

/// Whether two texts are the same.
fn same_text(a: &str, b: &str) -> (same: bool)
    ensures
        same == (a@ == b@),
{
    a.to_owned() == b.to_owned()
}

/// An alert: `kind` is `success`, `error` or `warning`; any other kind is
/// shown as a notice.
pub fn html_alert(kind: &str, message: &str) -> (html: String)
    ensures
        html@ == alert_text(kind@, message@),
{
    let classes: (&str, &str, &str) = if same_text(kind, "success") {
        ("bg-green-50", "border-green-400", "text-green-700")
    } else if same_text(kind, "error") {
        ("bg-red-50", "border-red-400", "text-red-700")
    } else if same_text(kind, "warning") {
        ("bg-yellow-50", "border-yellow-400", "text-yellow-700")
    } else {
        ("bg-blue-50", "border-blue-400", "text-blue-700")
    };
    let mut html = ALERT_OPEN.to_owned();
    html.append(classes.0);
    html.append(ALERT_BORDER);
    html.append(classes.1);
    html.append(ALERT_PARAGRAPH);
    html.append(classes.2);
    html.append(ALERT_MESSAGE);
    html.append(message);
    html.append(ALERT_CLOSE);
    assert(html@ =~= alert_text(kind@, message@));
    html
}

} // verus!
