use k8s_insider::cli::OutputFormat;
use k8s_insider::commands::version::{version_table, VersionView};
use k8s_insider::output::{
    print_table_internal, CellText, CliPrint, TableCellOption, TableCellSlice, TableOutputDisplay,
    TableOutputRow,
};

fn rows(v: &[&[&str]]) -> Vec<Vec<String>> {
    v.iter().map(|r| r.iter().map(|c| c.to_string()).collect()).collect()
}

#[test]
fn columns_are_as_wide_as_their_widest_cell() {
    let t = print_table_internal(&rows(&[&["NAME", "X"], &["a", "longer"], &["bb", ""]]), 2);
    assert_eq!(t, "NAME\tX     \na   \tlonger\nbb  \t      \n");
}

#[test]
fn empty_and_single_column_tables() {
    assert_eq!(print_table_internal(&Vec::new(), 3), "");
    assert_eq!(print_table_internal(&rows(&[&["x"], &["yyy"]]), 1), "x  \nyyy\n");
    assert_eq!(print_table_internal(&rows(&[&["a", "b"]]), 0), "");
}

#[test]
fn widths_count_bytes_and_padding_counts_characters() {
    // "é" takes two bytes, so its column is two wide while it is one character long
    let t = print_table_internal(&rows(&[&["é", "1"], &["a", "2"]]), 2);
    assert_eq!(t, "é \t1\na \t2\n");
}

#[test]
fn cells() {
    assert_eq!(TableCellOption::new(Some("x")).to_cell(), "x");
    assert_eq!(TableCellOption::<&str>::new(None).to_cell(), "-");
    let items = vec!["a".to_string(), "b".to_string(), "c".to_string()];
    assert_eq!(TableCellSlice::new(items.as_slice()).to_cell(), "a,b,c");
    let none: Vec<String> = vec![];
    assert_eq!(TableCellSlice::new(none.as_slice()).to_cell(), "");
}

#[test]
fn version_listing() {
    let t = version_table(Some("1.2.3"), None);
    assert_eq!(t.len(), 5);
    assert_eq!(t[0].component, "k8s-insider CLI (local)");
    assert_eq!(t[1].version, "1.2.3");
    assert_eq!(t[2].version, "unknown");
    assert_eq!(VersionView::get_latest_version(None).version, "unknown");
    assert_eq!(t.print_names(), "k8s-insider CLI (local)\nk8s-insider CLI (latest)\nk8s-insider-controller\nk8s-insider-network-manager\nk8s-insider-router\n");
    let table = t.print_table_with_headers();
    let first = table.lines().next().unwrap();
    assert_eq!(first, format!("{:<27}\tVERSION", "COMPONENT"));
    assert_eq!(VersionView::get_column_names(), vec!["COMPONENT", "VERSION"]);
    assert_eq!(VersionView::get_column_count(), 2);
    assert_eq!(t.print(OutputFormat::Names).unwrap(), t.print_names());
    assert_eq!(t.print(OutputFormat::Table).unwrap(), t.print_table());
    assert!(t.print(OutputFormat::Json).is_none());
    assert!(t.print(OutputFormat::Yaml).is_none());
}
