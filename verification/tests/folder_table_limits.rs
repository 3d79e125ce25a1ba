use mailcmd::folder::table::{column_widths, render_line, render_table};
use mailcmd::folder::Folder;

fn folder(delim: &str, name: &str, desc: &str) -> Folder {
    Folder {
        delim: String::from(delim),
        name: String::from(name),
        desc: String::from(desc),
    }
}

#[test]
fn an_empty_listing_shows_the_heading_only() {
    assert_eq!(render_table(&vec![], None), "\nDELIM │NAME │DESC \n\n");
    assert_eq!(column_widths(&vec![]), (5, 4, 4));
}

#[test]
fn columns_are_as_wide_as_their_widest_entry() {
    let folders = vec![
        folder(".", "INBOX", ""),
        folder("/", "Archives/2024", "Old mail"),
        folder("/", "x", "A long description"),
    ];
    assert_eq!(column_widths(&folders), (5, 13, 18));
    assert_eq!(
        render_table(&folders, None),
        [
            "\n",
            "DELIM │NAME          │DESC               \n",
            ".     │INBOX         │                   \n",
            "/     │Archives/2024 │Old mail           \n",
            "/     │x             │A long description \n",
            "\n"
        ]
        .concat()
    );
}

#[test]
fn a_delimiter_longer_than_its_heading_widens_the_column() {
    let folders = vec![folder("::::::", "a", "b")];
    assert_eq!(
        render_table(&folders, None),
        "\nDELIM  │NAME │DESC \n:::::: │a    │b    \n\n"
    );
}

#[test]
fn lines_are_cut_to_the_maximum_width() {
    let folders = vec![folder("/", "INBOX", "desc"), folder("/", "Sent", "desc")];
    assert_eq!(
        render_table(&folders, Some(10)),
        ["\n", "DELIM │NAM\n", "/     │INB\n", "/     │Sen\n", "\n"].concat()
    );
    assert_eq!(render_table(&folders, Some(0)), "\n\n\n\n\n");
    assert_eq!(
        render_table(&folders, Some(19)),
        render_table(&folders, None)
    );
    assert_eq!(
        render_table(&folders, Some(18)),
        [
            "\n",
            "DELIM │NAME  │DESC\n",
            "/     │INBOX │desc\n",
            "/     │Sent  │desc\n",
            "\n"
        ]
        .concat()
    );
}

#[test]
fn a_line_pads_each_entry_and_joins_them_with_bars() {
    assert_eq!(render_line("a", "b", "c", (1, 1, 1), None), "a │b │c \n");
    assert_eq!(render_line("a", "b", "c", (3, 2, 1), None), "a   │b  │c \n");
    assert_eq!(render_line("abc", "b", "c", (1, 1, 1), Some(4)), "abc \n");
}
