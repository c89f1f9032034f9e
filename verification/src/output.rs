//! Text output of listings: cells, rows and aligned tables.
use vstd::prelude::*;
use vstd::utf8::encode_utf8;
use crate::cli::OutputFormat;
use crate::crd::{NetworkService, NetworkState, TunnelState};
use crate::net::{IpAddrPair, IpNetwork, SocketAddress};
use crate::text::{push_char, push_str, to_owned_string};
use crate::wireguard::peer_config::join_commas;

verus! {

/// The texts of a sequence of strings.
pub open spec fn strings_view(v: Seq<String>) -> Seq<Seq<char>> {
    v.map_values(|s: String| s@)
}

/// The texts of a sequence of rows.
pub open spec fn rows_view(v: Seq<Vec<String>>) -> Seq<Seq<Seq<char>>> {
    v.map_values(|r: Vec<String>| strings_view(r@))
}

/// A value shown in a table cell.
pub trait CellText {
    /// The text of the cell.
    spec fn cell_text(&self) -> Seq<char>;

    fn to_cell(&self) -> (r: String)
        ensures
            r@ == self.cell_text(),
    ;
}

impl CellText for String {
    open spec fn cell_text(&self) -> Seq<char> {
        self@
    }

    fn to_cell(&self) -> (r: String) {
        self.clone()
    }
}

impl<'a> CellText for &'a str {
    open spec fn cell_text(&self) -> Seq<char> {
        (*self)@
    }

    fn to_cell(&self) -> (r: String) {
        to_owned_string(*self)
    }
}

impl<'a, T: CellText> CellText for &'a T {
    open spec fn cell_text(&self) -> Seq<char> {
        (**self).cell_text()
    }

    fn to_cell(&self) -> (r: String) {
        (**self).to_cell()
    }
}

impl CellText for IpAddrPair {
    open spec fn cell_text(&self) -> Seq<char> {
        self@
    }

    fn to_cell(&self) -> (r: String) {
        self.to_string()
    }
}

impl CellText for SocketAddress {
    open spec fn cell_text(&self) -> Seq<char> {
        self@
    }

    fn to_cell(&self) -> (r: String) {
        self.to_string()
    }
}

impl CellText for IpNetwork {
    open spec fn cell_text(&self) -> Seq<char> {
        self@
    }

    fn to_cell(&self) -> (r: String) {
        self.to_string()
    }
}

/// The name of a network state.
pub open spec fn network_state_text(s: NetworkState) -> Seq<char> {
    match s {
        NetworkState::Created => "Created"@,
        NetworkState::Deployed => "Deployed"@,
        NetworkState::Failed => "Failed"@,
    }
}

impl CellText for NetworkState {
    open spec fn cell_text(&self) -> Seq<char> {
        network_state_text(*self)
    }

    fn to_cell(&self) -> (r: String) {
        match self {
            NetworkState::Created => to_owned_string("Created"),
            NetworkState::Deployed => to_owned_string("Deployed"),
            NetworkState::Failed => to_owned_string("Failed"),
        }
    }
}

/// The name of a tunnel state.
pub open spec fn tunnel_state_text(s: TunnelState) -> Seq<char> {
    match s {
        TunnelState::Created => "Created"@,
        TunnelState::Configured => "Configured"@,
        TunnelState::Connected => "Connected"@,
        TunnelState::Closed => "Closed"@,
        TunnelState::Failed => "Failed"@,
    }
}

impl CellText for TunnelState {
    open spec fn cell_text(&self) -> Seq<char> {
        tunnel_state_text(*self)
    }

    fn to_cell(&self) -> (r: String) {
        match self {
            TunnelState::Created => to_owned_string("Created"),
            TunnelState::Configured => to_owned_string("Configured"),
            TunnelState::Connected => to_owned_string("Connected"),
            TunnelState::Closed => to_owned_string("Closed"),
            TunnelState::Failed => to_owned_string("Failed"),
        }
    }
}

/// The name of the kind of a network's service.
pub open spec fn network_service_text(s: NetworkService) -> Seq<char> {
    match s {
        NetworkService::ClusterIp { .. } => "ClusterIp"@,
        NetworkService::NodePort { .. } => "NodePort"@,
        NetworkService::LoadBalancer { .. } => "LoadBalancer"@,
        NetworkService::ExternalIp { .. } => "ExternalIp"@,
    }
}

impl CellText for NetworkService {
    open spec fn cell_text(&self) -> Seq<char> {
        network_service_text(*self)
    }

    fn to_cell(&self) -> (r: String) {
        match self {
            NetworkService::ClusterIp { .. } => to_owned_string("ClusterIp"),
            NetworkService::NodePort { .. } => to_owned_string("NodePort"),
            NetworkService::LoadBalancer { .. } => to_owned_string("LoadBalancer"),
            NetworkService::ExternalIp { .. } => to_owned_string("ExternalIp"),
        }
    }
}

/// A cell that may be empty; an empty one shows `-`.
pub struct TableCellOption<T>(pub Option<T>);

impl<T> TableCellOption<T> {
    pub fn new(value: Option<T>) -> (r: Self)
        ensures
            r.0 == value,
    {
        TableCellOption(value)
    }
}

impl<T: CellText> CellText for TableCellOption<T> {
    open spec fn cell_text(&self) -> Seq<char> {
        match self.0 {
            Some(v) => v.cell_text(),
            None => seq!['-'],
        }
    }

    fn to_cell(&self) -> (r: String) {
        match &self.0 {
            Some(v) => v.to_cell(),
            None => {
                let mut r = String::new();
                push_char(&mut r, '-');
                r
            },
        }
    }
}

/// A cell that shows several values, separated by commas.
pub struct TableCellSlice<'a, T>(pub &'a [T]);

impl<'a, T> TableCellSlice<'a, T> {
    pub fn new(value: &'a [T]) -> (r: Self)
        ensures
            r.0 == value,
    {
        TableCellSlice(value)
    }
}

impl<'a, T: CellText> CellText for TableCellSlice<'a, T> {
    open spec fn cell_text(&self) -> Seq<char> {
        join_commas(self.0@.map_values(|x: T| x.cell_text()))
    }

    fn to_cell(&self) -> (r: String) {
        let ghost items = self.0@.map_values(|x: T| x.cell_text());
        let n = self.0.len();
        let mut r = String::new();
        let mut i: usize = 0;
        while i < n
            invariant
                n == self.0@.len(),
                items == self.0@.map_values(|x: T| x.cell_text()),
                i <= n,
                r@ == join_commas(items.take(i as int)),
            decreases n - i,
        {
            if i > 0 {
                push_char(&mut r, ',');
            }
            let t = self.0[i].to_cell();
            push_str(&mut r, t.as_str());
            assert(items.take(i + 1).drop_last() =~= items.take(i as int));
            assert(items.take(i + 1).last() == items[i as int]);
            i = i + 1;
        }
        assert(items.take(n as int) =~= items);
        r
    }
}

/// A record listed as a table row.
pub trait TableOutputRow: Sized {
    /// The value of the row's name column.
    spec fn name_text(&self) -> Seq<char>;

    /// The headers of the columns.
    spec fn column_names_text() -> Seq<Seq<char>>;

    /// The cells of the row, one per column.
    spec fn row_text(&self) -> Seq<Seq<char>>;

    fn get_name(&self) -> (r: String)
        ensures
            r@ == self.name_text(),
    ;

    fn get_column_names() -> (r: Vec<String>)
        ensures
            strings_view(r@) == Self::column_names_text(),
    ;

    fn get_column_count() -> (r: usize)
        ensures
            r == Self::column_names_text().len(),
    ;

    fn get_row(&self) -> (r: Vec<String>)
        ensures
            strings_view(r@) == self.row_text(),
            r@.len() == Self::column_names_text().len(),
    ;
}

/// The width of a cell: the length of its UTF-8 encoding, as `str::len`
/// gives it.
pub open spec fn cell_width(t: Seq<char>) -> usize {
    encode_utf8(t).len() as usize
}

/// The width of column `i`: the widest of its cells, 0 without rows.
pub open spec fn column_width(rows: Seq<Seq<Seq<char>>>, i: int) -> nat
    decreases rows.len(),
{
    if rows.len() == 0 {
        0
    } else {
        let w = column_width(rows.drop_last(), i);
        let b = cell_width(rows.last()[i]) as nat;
        if w < b {
            b
        } else {
            w
        }
    }
}

/// The widths of the first `count` columns.
pub open spec fn column_widths(rows: Seq<Seq<Seq<char>>>, count: nat) -> Seq<nat> {
    Seq::new(count, |i: int| column_width(rows, i))
}

/// `cell` followed by spaces up to `width` characters.
pub open spec fn padded(cell: Seq<char>, width: nat) -> Seq<char> {
    if cell.len() < width {
        cell + Seq::new((width - cell.len()) as nat, |_j: int| ' ')
    } else {
        cell
    }
}

/// What follows cell `i` of a line of `count` cells: a tab, or a line break
/// after the last.
pub open spec fn cell_end(i: int, count: int) -> char {
    if i == count - 1 {
        '\n'
    } else {
        '\t'
    }
}

/// The first `k` cells of a line, each padded to its column's width.
pub open spec fn line_prefix(row: Seq<Seq<char>>, widths: Seq<nat>, k: int) -> Seq<char>
    decreases k,
{
    if k <= 0 {
        Seq::empty()
    } else {
        line_prefix(row, widths, k - 1) + padded(row[k - 1], widths[k - 1]).push(
            cell_end(k - 1, widths.len() as int),
        )
    }
}

/// The first `n` lines of a table.
pub open spec fn table_prefix(rows: Seq<Seq<Seq<char>>>, widths: Seq<nat>, n: int) -> Seq<char>
    decreases n,
{
    if n <= 0 {
        Seq::empty()
    } else {
        table_prefix(rows, widths, n - 1) + line_prefix(rows[n - 1], widths, widths.len() as int)
    }
}

/// A table of `count` columns: one line per row, its cells left-aligned in
/// columns as wide as their widest cell and separated by tabs.
pub open spec fn render_table(rows: Seq<Seq<Seq<char>>>, count: nat) -> Seq<char> {
    table_prefix(rows, column_widths(rows, count), rows.len() as int)
}

/// Every column is as wide as its widest cell: no cell is wider, and with
/// rows some cell is exactly as wide; without rows it is empty.
pub proof fn lemma_column_width(rows: Seq<Seq<Seq<char>>>, i: int)
    ensures
        forall|r: int| 0 <= r < rows.len() ==> cell_width(#[trigger] rows[r][i]) <= column_width(rows, i),
        rows.len() > 0 ==> exists|r: int|
            0 <= r < rows.len() && cell_width(#[trigger] rows[r][i]) == column_width(rows, i),
        rows.len() == 0 ==> column_width(rows, i) == 0,
    decreases rows.len(),
{
    if rows.len() > 0 {
        let init = rows.drop_last();
        lemma_column_width(init, i);
        assert forall|r: int| 0 <= r < rows.len() implies cell_width(#[trigger] rows[r][i])
            <= column_width(rows, i) by {
            if r < init.len() {
                assert(rows[r] == init[r]);
            }
        }
        if column_width(init, i) < cell_width(rows.last()[i]) || init.len() == 0 {
            assert(cell_width(rows[rows.len() - 1][i]) == column_width(rows, i));
        } else {
            let r = choose|r: int| 0 <= r < init.len() && cell_width(#[trigger] init[r][i]) == column_width(init, i);
            assert(rows[r] == init[r]);
            assert(cell_width(rows[r][i]) == column_width(rows, i));
        }
    }
}

/// A padded cell starts with the cell, is as long as the width or the cell,
/// whichever is more, and the rest is spaces.
pub proof fn lemma_padded(cell: Seq<char>, width: nat)
    ensures
        padded(cell, width).len() == if cell.len() < width {
            width
        } else {
            cell.len()
        },
        padded(cell, width).take(cell.len() as int) == cell,
        forall|j: int| cell.len() <= j < padded(cell, width).len() ==> #[trigger] padded(cell, width)[j] == ' ',
{
    assert(padded(cell, width).take(cell.len() as int) =~= cell);
}

fn byte_length(s: &String) -> (n: usize)
    ensures
        n == cell_width(s@),
{
    s.as_str().len()
}

/// The width of each of the first `count` columns.
fn compute_widths(rows: &Vec<Vec<String>>, count: usize) -> (w: Vec<usize>)
    requires
        forall|r: int| 0 <= r < rows@.len() ==> #[trigger] rows@[r]@.len() >= count,
    ensures
        w@.len() == count,
        forall|i: int| 0 <= i < count ==> w@[i] == column_width(rows_view(rows@), i),
{
    let ghost rv = rows_view(rows@);
    let mut w: Vec<usize> = Vec::new();
    let mut i: usize = 0;
    while i < count
        invariant
            rv == rows_view(rows@),
            forall|r: int| 0 <= r < rows@.len() ==> #[trigger] rows@[r]@.len() >= count,
            i <= count,
            w@.len() == i,
            forall|k: int| 0 <= k < i ==> w@[k] == column_width(rv, k),
        decreases count - i,
    {
        let mut best: usize = 0;
        let mut r: usize = 0;
        while r < rows.len()
            invariant
                rv == rows_view(rows@),
                forall|r: int| 0 <= r < rows@.len() ==> #[trigger] rows@[r]@.len() >= count,
                i < count,
                r <= rows@.len(),
                best == column_width(rv.take(r as int), i as int),
            decreases rows@.len() - r,
        {
            let b = byte_length(&rows[r][i]);
            assert(rv.take(r + 1).drop_last() =~= rv.take(r as int));
            assert(rv.take(r + 1).last()[i as int] == rows@[r as int]@[i as int]@);
            if best < b {
                best = b;
            }
            r = r + 1;
        }
        assert(rv.take(rows@.len() as int) =~= rv);
        w.push(best);
        i = i + 1;
    }
    w
}

/// Appends `cell`, then spaces up to `width` characters.
fn push_padded(s: &mut String, cell: &String, width: usize)
    ensures
        final(s)@ == old(s)@ + padded(cell@, width as nat),
{
    push_str(s, cell.as_str());
    let n = cell.as_str().unicode_len();
    let ghost start = s@;
    if n < width {
        let mut j: usize = n;
        while j < width
            invariant
                n == cell@.len(),
                n <= j <= width,
                s@ == start + Seq::new((j - n) as nat, |_k: int| ' '),
            decreases width - j,
        {
            push_char(s, ' ');
            assert(s@ =~= start + Seq::new((j + 1 - n) as nat, |_k: int| ' '));
            j = j + 1;
        }
    }
    assert(old(s)@ + padded(cell@, width as nat) =~= s@);
}

/// The table of `count` columns made of `rows`.
pub fn print_table_internal(rows: &Vec<Vec<String>>, count: usize) -> (r: String)
    requires
        forall|i: int| 0 <= i < rows@.len() ==> #[trigger] rows@[i]@.len() >= count,
    ensures
        r@ == render_table(rows_view(rows@), count as nat),
{
    let ghost rv = rows_view(rows@);
    let widths = compute_widths(rows, count);
    let ghost ws = column_widths(rv, count as nat);
    assert(widths@.map_values(|x: usize| x as nat) =~= ws);
    let mut out = String::new();
    let mut r: usize = 0;
    while r < rows.len()
        invariant
            rv == rows_view(rows@),
            ws == column_widths(rv, count as nat),
            forall|i: int| 0 <= i < rows@.len() ==> #[trigger] rows@[i]@.len() >= count,
            widths@.len() == count,
            forall|i: int| 0 <= i < count ==> widths@[i] == ws[i],
            r <= rows@.len(),
            out@ == table_prefix(rv, ws, r as int),
        decreases rows@.len() - r,
    {
        let row = &rows[r];
        let ghost before = out@;
        let mut i: usize = 0;
        while i < count
            invariant
                rv == rows_view(rows@),
                ws == column_widths(rv, count as nat),
                r < rows@.len(),
                row@ == rows@[r as int]@,
                row@.len() >= count,
                widths@.len() == count,
                forall|k: int| 0 <= k < count ==> widths@[k] == ws[k],
                i <= count,
                out@ == before + line_prefix(rv[r as int], ws, i as int),
            decreases count - i,
        {
            assert(rv[r as int][i as int] == row@[i as int]@);
            push_padded(&mut out, &row[i], widths[i]);
            if i + 1 == count {
                push_char(&mut out, '\n');
            } else {
                push_char(&mut out, '\t');
            }
            i = i + 1;
        }
        r = r + 1;
    }
    out
}

/// The rows' names, one per line.
pub open spec fn names_lines<T: TableOutputRow>(rows: Seq<T>) -> Seq<char>
    decreases rows.len(),
{
    if rows.len() == 0 {
        Seq::empty()
    } else {
        names_lines(rows.drop_last()) + rows.last().name_text().push('\n')
    }
}

/// The cells of each row.
pub open spec fn rows_text<T: TableOutputRow>(rows: Seq<T>) -> Seq<Seq<Seq<char>>> {
    rows.map_values(|t: T| t.row_text())
}

/// Listing a collection of rows: by name, as a table, or as a table under
/// its column headers.
pub trait TableOutputDisplay {
    spec fn names_spec(&self) -> Seq<char>;

    spec fn table_spec(&self) -> Seq<char>;

    spec fn table_with_headers_spec(&self) -> Seq<char>;

    fn print_names(&self) -> (r: String)
        ensures
            r@ == self.names_spec(),
    ;

    fn print_table(&self) -> (r: String)
        ensures
            r@ == self.table_spec(),
    ;

    fn print_table_with_headers(&self) -> (r: String)
        ensures
            r@ == self.table_with_headers_spec(),
    ;
}

/// The cells of every row, in order.
fn collect_rows<T: TableOutputRow>(items: &Vec<T>, out: &mut Vec<Vec<String>>)
    ensures
        rows_view(final(out)@) == rows_view(old(out)@) + rows_text(items@),
        forall|i: int| 0 <= i < final(out)@.len() ==> #[trigger] final(out)@[i]@.len() == (if i
            < old(out)@.len() {
            old(out)@[i]@.len() as int
        } else {
            T::column_names_text().len() as int
        }),
{
    let mut k: usize = 0;
    let ghost start = old(out)@;
    while k < items.len()
        invariant
            k <= items@.len(),
            rows_view(out@) == rows_view(start) + rows_text(items@.take(k as int)),
            out@.len() == start.len() + k,
            forall|i: int| 0 <= i < out@.len() ==> #[trigger] out@[i]@.len() == (if i
                < start.len() {
                start[i]@.len() as int
            } else {
                T::column_names_text().len() as int
            }),
            forall|i: int| 0 <= i < start.len() ==> #[trigger] out@[i] == start[i],
        decreases items@.len() - k,
    {
        let row = items[k].get_row();
        let ghost prev = out@;
        out.push(row);
        assert(rows_view(out@) =~= rows_view(prev).push(strings_view(row@)));
        assert(rows_text(items@.take(k + 1)) =~= rows_text(items@.take(k as int)).push(
            items@[k as int].row_text(),
        ));
        assert(rows_view(out@) =~= rows_view(start) + rows_text(items@.take(k + 1)));
        k = k + 1;
    }
    assert(items@.take(items@.len() as int) =~= items@);
}

impl<T: TableOutputRow> TableOutputDisplay for Vec<T> {
    open spec fn names_spec(&self) -> Seq<char> {
        names_lines(self@)
    }

    open spec fn table_spec(&self) -> Seq<char> {
        render_table(rows_text(self@), T::column_names_text().len())
    }

    open spec fn table_with_headers_spec(&self) -> Seq<char> {
        render_table(
            seq![T::column_names_text()] + rows_text(self@),
            T::column_names_text().len(),
        )
    }

    fn print_names(&self) -> (r: String) {
        let mut r = String::new();
        let mut k: usize = 0;
        while k < self.len()
            invariant
                k <= self@.len(),
                r@ == names_lines(self@.take(k as int)),
            decreases self@.len() - k,
        {
            let name = self[k].get_name();
            push_str(&mut r, name.as_str());
            push_char(&mut r, '\n');
            assert(self@.take(k + 1).drop_last() =~= self@.take(k as int));
            k = k + 1;
        }
        assert(self@.take(self@.len() as int) =~= self@);
        r
    }

    fn print_table(&self) -> (r: String) {
        let mut rows: Vec<Vec<String>> = Vec::new();
        collect_rows(self, &mut rows);
        assert(rows_view(rows@) =~= rows_text(self@));
        let count = T::get_column_count();
        print_table_internal(&rows, count)
    }

    fn print_table_with_headers(&self) -> (r: String) {
        let mut rows: Vec<Vec<String>> = Vec::new();
        let names = T::get_column_names();
        rows.push(names);
        assert(rows_view(rows@) =~= seq![T::column_names_text()]);
        collect_rows(self, &mut rows);
        let count = T::get_column_count();
        proof {
            assert forall|i: int| 0 <= i < rows@.len() implies #[trigger] rows@[i]@.len()
                >= count by {
                if i == 0 {
                    assert(strings_view(rows@[0]@).len() == rows@[0]@.len());
                }
            }
        }
        print_table_internal(&rows, count)
    }
}

/// Printing a listing in a chosen format. The text formats are made here;
/// the serialised ones (JSON, YAML) are not, and give `None`.
pub trait CliPrint {
    spec fn text_spec(&self, format: OutputFormat) -> Option<Seq<char>>;

    fn print(&self, format: OutputFormat) -> (r: Option<String>)
        ensures
            match r {
                Some(t) => self.text_spec(format) == Some(t@),
                None => self.text_spec(format) is None,
            },
    ;
}

impl<T: TableOutputRow> CliPrint for Vec<T> {
    open spec fn text_spec(&self, format: OutputFormat) -> Option<Seq<char>> {
        match format {
            OutputFormat::Names => Some(self.names_spec()),
            OutputFormat::Table => Some(self.table_spec()),
            OutputFormat::TableWithHeaders => Some(self.table_with_headers_spec()),
            _ => None,
        }
    }

    fn print(&self, format: OutputFormat) -> (r: Option<String>) {
        match format {
            OutputFormat::Names => Some(self.print_names()),
            OutputFormat::Table => Some(self.print_table()),
            OutputFormat::TableWithHeaders => Some(self.print_table_with_headers()),
            _ => None,
        }
    }
}

} // verus!
