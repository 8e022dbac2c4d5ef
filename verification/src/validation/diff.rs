//! Field-by-field comparison of two versions of an invoice.

use crate::decimal::{amount_eq, amount_text, decimal_text};
use crate::domain::invoice::{line_views, Invoice, InvoiceLine, InvoiceLineView, InvoiceView};
use crate::text::{i32_to_text, int_text};
use std::collections::HashMap;
use vstd::prelude::*;
use vstd::std_specs::hash::*;
use vstd::string::*;

verus! {

/// One field that differs between two versions of an invoice.
#[derive(Clone, Debug)]
pub struct FieldChange {
    pub path: String,
    pub old_value: String,
    pub new_value: String,
}

/// Mathematical view of a [`FieldChange`].
pub struct FieldChangeView {
    pub path: Seq<char>,
    pub old_value: Seq<char>,
    pub new_value: Seq<char>,
}

impl View for FieldChange {
    type V = FieldChangeView;

    open spec fn view(&self) -> FieldChangeView {
        FieldChangeView {
            path: self.path@,
            old_value: self.old_value@,
            new_value: self.new_value@,
        }
    }
}

impl FieldChange {
    /// The change of the field at `path` from `old` to `new`.
    pub fn new(path: &str, old: String, new: String) -> (c: FieldChange)
        ensures
            c@ == change(path@, old@, new@),
    {
        FieldChange { path: path.to_owned(), old_value: old, new_value: new }
    }
}

/// The views of a list of changes.
pub open spec fn change_views(list: Seq<FieldChange>) -> Seq<FieldChangeView> {
    Seq::new(list.len(), |i: int| list[i]@)
}

/// The differences between two versions of an invoice.
#[derive(Clone, Debug)]
pub struct InvoiceDiff {
    pub has_changes: bool,
    pub changes: Vec<FieldChange>,
}

/// Mathematical view of an [`InvoiceDiff`].
pub struct InvoiceDiffView {
    pub has_changes: bool,
    pub changes: Seq<FieldChangeView>,
}

impl View for InvoiceDiff {
    type V = InvoiceDiffView;

    open spec fn view(&self) -> InvoiceDiffView {
        InvoiceDiffView { has_changes: self.has_changes, changes: change_views(self.changes@) }
    }
}

impl InvoiceDiff {
    /// The diff of two versions that do not differ.
    pub fn empty() -> (d: InvoiceDiff)
        ensures
            !d@.has_changes,
            d@.changes == Seq::<FieldChangeView>::empty(),
    {
        let d = InvoiceDiff { has_changes: false, changes: Vec::new() };
        d
    }
}

/// The record of a field at `path` that changed from `old` to `new`.
pub open spec fn change(path: Seq<char>, old: Seq<char>, new: Seq<char>) -> FieldChangeView {
    FieldChangeView { path, old_value: old, new_value: new }
}

/// `acc`, followed by `c` where `cond` holds.
pub open spec fn push_if(
    acc: Seq<FieldChangeView>,
    cond: bool,
    c: FieldChangeView,
) -> Seq<FieldChangeView> {
    if cond {
        acc.push(c)
    } else {
        acc
    }
}

/// How the presence of a counterpart is written in a change record.
pub open spec fn presence_text(present: bool) -> Seq<char> {
    if present {
        "Present"@
    } else {
        "None"@
    }
}

/// Path of the line with the given number.
pub open spec fn line_path(number: int) -> Seq<char> {
    "line["@ + int_text(number) + "]"@
}

/// Path of the net value of the line with the given number.
pub open spec fn net_value_path(number: int) -> Seq<char> {
    "line["@ + int_text(number) + "].net_value"@
}

/// Path of the VAT category of the line with the given number.
pub open spec fn vat_category_path(number: int) -> Seq<char> {
    "line["@ + int_text(number) + "].vat_category"@
}

/// The changes of the header, the issuer, the counterpart and the totals, in
/// this order.
pub open spec fn header_changes(old: InvoiceView, new: InvoiceView) -> Seq<FieldChangeView> {
    let s = Seq::<FieldChangeView>::empty();
    let s = push_if(
        s,
        old.header.series != new.header.series,
        change("header.series"@, old.header.series, new.header.series),
    );
    let s = push_if(
        s,
        old.header.aa != new.header.aa,
        change("header.aa"@, old.header.aa, new.header.aa),
    );
    let s = push_if(
        s,
        old.header.issue_date != new.header.issue_date,
        change(
            "header.issue_date"@,
            old.header.issue_date.text(),
            new.header.issue_date.text(),
        ),
    );
    let s = push_if(
        s,
        old.header.invoice_type != new.header.invoice_type,
        change(
            "header.invoice_type"@,
            old.header.invoice_type.code_text(),
            new.header.invoice_type.code_text(),
        ),
    );
    let s = push_if(
        s,
        old.issuer.vat_number != new.issuer.vat_number,
        change("issuer.vat_number"@, old.issuer.vat_number, new.issuer.vat_number),
    );
    let s = if old.counterpart is Some && new.counterpart is Some {
        push_if(
            s,
            old.counterpart->0.vat_number != new.counterpart->0.vat_number,
            change(
                "counterpart.vat_number"@,
                old.counterpart->0.vat_number,
                new.counterpart->0.vat_number,
            ),
        )
    } else {
        push_if(
            s,
            old.counterpart is Some != new.counterpart is Some,
            change(
                "counterpart"@,
                presence_text(old.counterpart is Some),
                presence_text(new.counterpart is Some),
            ),
        )
    };
    let s = push_if(
        s,
        old.totals.total_net_amount.units() != new.totals.total_net_amount.units(),
        change(
            "totals.net_amount"@,
            decimal_text(old.totals.total_net_amount),
            decimal_text(new.totals.total_net_amount),
        ),
    );
    let s = push_if(
        s,
        old.totals.total_vat_amount.units() != new.totals.total_vat_amount.units(),
        change(
            "totals.vat_amount"@,
            decimal_text(old.totals.total_vat_amount),
            decimal_text(new.totals.total_vat_amount),
        ),
    );
    push_if(
        s,
        old.totals.total_gross_amount.units() != new.totals.total_gross_amount.units(),
        change(
            "totals.gross_amount"@,
            decimal_text(old.totals.total_gross_amount),
            decimal_text(new.totals.total_gross_amount),
        ),
    )
}

/// Index of the last of the first `n` lines that carries the number
/// `number`, if any.
pub open spec fn find_last(lines: Seq<InvoiceLineView>, number: i32, n: nat) -> Option<int>
    decreases n,
{
    if n == 0 {
        None
    } else if lines[n - 1].line_number == number {
        Some(n - 1)
    } else {
        find_last(lines, number, (n - 1) as nat)
    }
}

/// The line that stands for the number `number`: the last one that carries
/// it.
pub open spec fn line_of(lines: Seq<InvoiceLineView>, number: i32) -> Option<int> {
    find_last(lines, number, lines.len())
}

/// Whether the line at index `i` stands for its number, that is, no later
/// line carries the same number.
pub open spec fn stands_for_number(lines: Seq<InvoiceLineView>, i: int) -> bool {
    line_of(lines, lines[i].line_number) == Some(i)
}

/// `acc`, followed by the changes between two lines of the same number: the
/// net value, then the VAT category.
pub open spec fn with_line_changes(
    acc: Seq<FieldChangeView>,
    old_line: InvoiceLineView,
    new_line: InvoiceLineView,
) -> Seq<FieldChangeView> {
    let number = old_line.line_number as int;
    let s = push_if(
        acc,
        old_line.net_value.units() != new_line.net_value.units(),
        change(
            net_value_path(number),
            decimal_text(old_line.net_value),
            decimal_text(new_line.net_value),
        ),
    );
    push_if(
        s,
        old_line.vat_category != new_line.vat_category,
        change(
            vat_category_path(number),
            old_line.vat_category.code_text(),
            new_line.vat_category.code_text(),
        ),
    )
}

/// `acc`, followed by the modifications and deletions among the first `n`
/// lines of the old version. Each line number is looked at once, at the last
/// old line that carries it: where the new version has a line of that number
/// the two are compared, and where it has none the line is reported as
/// deleted.
pub open spec fn with_old_lines(
    acc: Seq<FieldChangeView>,
    old_lines: Seq<InvoiceLineView>,
    new_lines: Seq<InvoiceLineView>,
    n: nat,
) -> Seq<FieldChangeView>
    decreases n,
{
    if n == 0 {
        acc
    } else {
        let before = with_old_lines(acc, old_lines, new_lines, (n - 1) as nat);
        let line = old_lines[n - 1];
        if !stands_for_number(old_lines, n - 1) {
            before
        } else {
            match line_of(new_lines, line.line_number) {
                Some(j) => with_line_changes(before, line, new_lines[j]),
                None => before.push(
                    change(line_path(line.line_number as int), "Exists"@, "Deleted"@),
                ),
            }
        }
    }
}

/// `acc`, followed by the creations among the first `n` lines of the new
/// version: one for each line number that no old line carries.
pub open spec fn with_new_lines(
    acc: Seq<FieldChangeView>,
    old_lines: Seq<InvoiceLineView>,
    new_lines: Seq<InvoiceLineView>,
    n: nat,
) -> Seq<FieldChangeView>
    decreases n,
{
    if n == 0 {
        acc
    } else {
        let before = with_new_lines(acc, old_lines, new_lines, (n - 1) as nat);
        let line = new_lines[n - 1];
        push_if(
            before,
            stands_for_number(new_lines, n - 1) && line_of(old_lines, line.line_number) is None,
            change(line_path(line.line_number as int), "None"@, "Created"@),
        )
    }
}

/// All changes from `old` to `new`: header, issuer, counterpart and totals,
/// then modified and deleted lines in the order of the old version, then
/// created lines in the order of the new version.
pub open spec fn diff_changes(old: InvoiceView, new: InvoiceView) -> Seq<FieldChangeView> {
    let s = header_changes(old, new);
    let s = with_old_lines(s, old.lines, new.lines, old.lines.len());
    with_new_lines(s, old.lines, new.lines, new.lines.len())
}

/// A line index returned by the search carries the number searched for.
pub proof fn lemma_find_last_hits(lines: Seq<InvoiceLineView>, number: i32, n: nat)
    requires
        n <= lines.len(),
    ensures
        match find_last(lines, number, n) {
            Some(j) => 0 <= j < n && lines[j].line_number == number,
            None => forall|k: int| 0 <= k < n ==> (#[trigger] lines[k]).line_number != number,
        },
    decreases n,
{
    if n > 0 && lines[n - 1].line_number != number {
        lemma_find_last_hits(lines, number, (n - 1) as nat);
    }
}

/// Comparing the lines of a version with themselves adds no modification
/// and no deletion.
pub proof fn lemma_same_lines_unchanged(
    acc: Seq<FieldChangeView>,
    lines: Seq<InvoiceLineView>,
    n: nat,
)
    requires
        n <= lines.len(),
    ensures
        with_old_lines(acc, lines, lines, n) == acc,
    decreases n,
{
    if n > 0 {
        lemma_same_lines_unchanged(acc, lines, (n - 1) as nat);
    }
}

/// Comparing the lines of a version with themselves adds no creation.
pub proof fn lemma_same_lines_not_created(
    acc: Seq<FieldChangeView>,
    lines: Seq<InvoiceLineView>,
    n: nat,
)
    requires
        n <= lines.len(),
    ensures
        with_new_lines(acc, lines, lines, n) == acc,
    decreases n,
{
    if n > 0 {
        lemma_same_lines_not_created(acc, lines, (n - 1) as nat);
    }
}

/// Comparing an invoice with itself yields no change, whatever the invoice
/// holds.
pub proof fn lemma_compare_reflexive(a: InvoiceView)
    ensures
        diff_changes(a, a) == Seq::<FieldChangeView>::empty(),
{
    let s = header_changes(a, a);
    lemma_same_lines_unchanged(s, a.lines, a.lines.len());
    lemma_same_lines_not_created(s, a.lines, a.lines.len());
}

/// A record of a list is a record of every list that the list starts.
proof fn lemma_prefix_keeps(a: Seq<FieldChangeView>, b: Seq<FieldChangeView>, k: int)
    requires
        a.is_prefix_of(b),
        0 <= k < a.len(),
    ensures
        b.contains(a[k]),
{
    assert(b.subrange(0, a.len() as int)[k] == b[k]);
}

/// Comparing two lines adds to the records and removes none.
proof fn lemma_line_changes_extend(
    acc: Seq<FieldChangeView>,
    old_line: InvoiceLineView,
    new_line: InvoiceLineView,
)
    ensures
        acc.is_prefix_of(with_line_changes(acc, old_line, new_line)),
{
    let s = with_line_changes(acc, old_line, new_line);
    assert(acc =~= s.subrange(0, acc.len() as int));
}

/// The records of the first `n` old lines start those of the first `m`, for
/// `n` up to `m`.
pub proof fn lemma_old_lines_extend(
    acc: Seq<FieldChangeView>,
    old_lines: Seq<InvoiceLineView>,
    new_lines: Seq<InvoiceLineView>,
    n: nat,
    m: nat,
)
    requires
        n <= m,
    ensures
        with_old_lines(acc, old_lines, new_lines, n).is_prefix_of(
            with_old_lines(acc, old_lines, new_lines, m),
        ),
    decreases m,
{
    let at_n = with_old_lines(acc, old_lines, new_lines, n);
    if n < m {
        lemma_old_lines_extend(acc, old_lines, new_lines, n, (m - 1) as nat);
        let before = with_old_lines(acc, old_lines, new_lines, (m - 1) as nat);
        let after = with_old_lines(acc, old_lines, new_lines, m);
        let line = old_lines[m - 1];
        if stands_for_number(old_lines, m - 1) {
            match line_of(new_lines, line.line_number) {
                Some(j) => {
                    lemma_line_changes_extend(before, line, new_lines[j]);
                },
                None => {},
            }
        }
        assert(before =~= after.subrange(0, before.len() as int));
        assert(at_n =~= after.subrange(0, at_n.len() as int));
    } else {
        assert(at_n =~= at_n.subrange(0, at_n.len() as int));
    }
}

/// The records of the first `n` new lines start those of the first `m`, for
/// `n` up to `m`.
pub proof fn lemma_new_lines_extend(
    acc: Seq<FieldChangeView>,
    old_lines: Seq<InvoiceLineView>,
    new_lines: Seq<InvoiceLineView>,
    n: nat,
    m: nat,
)
    requires
        n <= m,
    ensures
        with_new_lines(acc, old_lines, new_lines, n).is_prefix_of(
            with_new_lines(acc, old_lines, new_lines, m),
        ),
    decreases m,
{
    let at_n = with_new_lines(acc, old_lines, new_lines, n);
    if n < m {
        lemma_new_lines_extend(acc, old_lines, new_lines, n, (m - 1) as nat);
        let before = with_new_lines(acc, old_lines, new_lines, (m - 1) as nat);
        let after = with_new_lines(acc, old_lines, new_lines, m);
        assert(before =~= after.subrange(0, before.len() as int));
        assert(at_n =~= after.subrange(0, at_n.len() as int));
    } else {
        assert(at_n =~= at_n.subrange(0, at_n.len() as int));
    }
}

/// Every record made for the first `n` old lines is a record of the diff.
proof fn lemma_old_line_record_kept(old: InvoiceView, new: InvoiceView, n: nat, k: int)
    requires
        n <= old.lines.len(),
        0 <= k < with_old_lines(header_changes(old, new), old.lines, new.lines, n).len(),
    ensures
        diff_changes(old, new).contains(
            with_old_lines(header_changes(old, new), old.lines, new.lines, n)[k],
        ),
{
    let head = header_changes(old, new);
    let at_n = with_old_lines(head, old.lines, new.lines, n);
    let all_old = with_old_lines(head, old.lines, new.lines, old.lines.len());
    lemma_old_lines_extend(head, old.lines, new.lines, n, old.lines.len());
    lemma_new_lines_extend(all_old, old.lines, new.lines, 0, new.lines.len());
    let all = diff_changes(old, new);
    assert(all_old.subrange(0, at_n.len() as int)[k] == all_old[k]);
    lemma_prefix_keeps(all_old, all, k);
}

/// A line number that both versions have, with net values that differ, is
/// reported as a modification of the net value of that line.
pub proof fn lemma_modified_line_is_reported(old: InvoiceView, new: InvoiceView, i: int, j: int)
    requires
        0 <= i < old.lines.len(),
        stands_for_number(old.lines, i),
        line_of(new.lines, old.lines[i].line_number) == Some(j),
        old.lines[i].net_value.units() != new.lines[j].net_value.units(),
    ensures
        diff_changes(old, new).contains(
            change(
                net_value_path(old.lines[i].line_number as int),
                decimal_text(old.lines[i].net_value),
                decimal_text(new.lines[j].net_value),
            ),
        ),
{
    let head = header_changes(old, new);
    let before = with_old_lines(head, old.lines, new.lines, i as nat);
    let after = with_old_lines(head, old.lines, new.lines, (i + 1) as nat);
    assert(after == with_line_changes(before, old.lines[i], new.lines[j]));
    lemma_old_line_record_kept(old, new, (i + 1) as nat, before.len() as int);
}

/// A line number that only the old version has is reported as one deletion,
/// and as nothing else: no modification is recorded for it.
pub proof fn lemma_deleted_line_is_reported(old: InvoiceView, new: InvoiceView, i: int)
    requires
        0 <= i < old.lines.len(),
        stands_for_number(old.lines, i),
        line_of(new.lines, old.lines[i].line_number) is None,
    ensures
        diff_changes(old, new).contains(
            change(line_path(old.lines[i].line_number as int), "Exists"@, "Deleted"@),
        ),
        with_old_lines(header_changes(old, new), old.lines, new.lines, (i + 1) as nat)
            == with_old_lines(header_changes(old, new), old.lines, new.lines, i as nat).push(
            change(line_path(old.lines[i].line_number as int), "Exists"@, "Deleted"@),
        ),
{
    let head = header_changes(old, new);
    let before = with_old_lines(head, old.lines, new.lines, i as nat);
    lemma_old_line_record_kept(old, new, (i + 1) as nat, before.len() as int);
}

/// A line number that only the new version has is reported as a creation.
pub proof fn lemma_created_line_is_reported(old: InvoiceView, new: InvoiceView, j: int)
    requires
        0 <= j < new.lines.len(),
        stands_for_number(new.lines, j),
        line_of(old.lines, new.lines[j].line_number) is None,
    ensures
        diff_changes(old, new).contains(
            change(line_path(new.lines[j].line_number as int), "None"@, "Created"@),
        ),
{
    let head = header_changes(old, new);
    let kept = with_old_lines(head, old.lines, new.lines, old.lines.len());
    let before = with_new_lines(kept, old.lines, new.lines, j as nat);
    let after = with_new_lines(kept, old.lines, new.lines, (j + 1) as nat);
    lemma_new_lines_extend(kept, old.lines, new.lines, (j + 1) as nat, new.lines.len());
    lemma_prefix_keeps(after, diff_changes(old, new), before.len() as int);
}

/// Adds the change of `path` from `before` to `after` to the list.
fn push_change(changes: &mut Vec<FieldChange>, path: &str, before: String, after: String)
    ensures
        change_views(final(changes)@) == change_views(old(changes)@).push(
            change(path@, before@, after@),
        ),
{
    changes.push(FieldChange::new(path, before, after));
}

/// How the presence of a counterpart is written in a change record.
fn presence(present: bool) -> (s: String)
    ensures
        s@ == presence_text(present),
{
    if present {
        "Present".to_owned()
    } else {
        "None".to_owned()
    }
}

/// The path of the line with the given number, followed by `suffix`.
fn numbered_path(number: i32, suffix: &str) -> (path: String)
    ensures
        path@ == "line["@ + int_text(number as int) + suffix@,
{
    let digits = i32_to_text(number);
    let mut path = String::from_str("line[");
    path.append(digits.as_str());
    path.append(suffix);
    path
}

/// Whether `index` maps every line number to the index of the line that
/// stands for it, and no other number.
pub open spec fn indexes(index: Map<i32, usize>, lines: Seq<InvoiceLineView>, n: nat) -> bool {
    forall|number: i32|
        match #[trigger] find_last(lines, number, n) {
            Some(j) => index.contains_key(number) && index[number] as int == j,
            None => !index.contains_key(number),
        }
}

/// Builds the index of the lines by line number. Of several lines with the
/// same number the last one is kept.
fn index_lines(lines: &Vec<InvoiceLine>) -> (index: HashMap<i32, usize>)
    ensures
        indexes(index@, line_views(lines@), lines@.len()),
{
    broadcast use group_hash_axioms;

    let ghost views = line_views(lines@);
    let mut index: HashMap<i32, usize> = HashMap::new();
    let mut i: usize = 0;
    while i < lines.len()
        invariant
            0 <= i <= lines.len(),
            views == line_views(lines@),
            indexes(index@, views, i as nat),
        decreases lines.len() - i,
    {
        let number = lines[i].line_number;
        index.insert(number, i);
        proof {
            assert forall|other: i32|
                match #[trigger] find_last(views, other, (i + 1) as nat) {
                    Some(j) => index@.contains_key(other) && index@[other] as int == j,
                    None => !index@.contains_key(other),
                } by {
                if other != number {
                    assert(find_last(views, other, (i + 1) as nat) == find_last(
                        views,
                        other,
                        i as nat,
                    ));
                }
            }
        }
        i = i + 1;
    }
    index
}

/// Looks up the line that stands for `number` in an index of lines.
fn find_line(index: &HashMap<i32, usize>, number: i32) -> (found: Option<usize>)
    ensures
        match found {
            Some(j) => index@.contains_key(number) && index@[number] == j,
            None => !index@.contains_key(number),
        },
{
    broadcast use group_hash_axioms;

    match index.get(&number) {
        Some(j) => Some(*j),
        None => None,
    }
}

/// Compares two versions of an invoice field by field. Lines are matched by
/// line number, never by position.
pub fn compare(old: &Invoice, new: &Invoice) -> (diff: InvoiceDiff)
    ensures
        diff@.changes == diff_changes(old@, new@),
        diff@.has_changes == (diff@.changes.len() > 0),
        old@ == new@ ==> !diff@.has_changes && diff@.changes.len() == 0,
{
    proof {
        lemma_compare_reflexive(old@);
    }
    let mut changes: Vec<FieldChange> = Vec::new();
    assert(change_views(changes@) =~= Seq::<FieldChangeView>::empty());

    if old.header.series != new.header.series {
        push_change(
            &mut changes,
            "header.series",
            old.header.series.clone(),
            new.header.series.clone(),
        );
    }
    if old.header.aa != new.header.aa {
        push_change(&mut changes, "header.aa", old.header.aa.clone(), new.header.aa.clone());
    }
    if old.header.issue_date != new.header.issue_date {
        push_change(
            &mut changes,
            "header.issue_date",
            old.header.issue_date.to_text(),
            new.header.issue_date.to_text(),
        );
    }
    if old.header.invoice_type != new.header.invoice_type {
        push_change(
            &mut changes,
            "header.invoice_type",
            old.header.invoice_type.code().to_owned(),
            new.header.invoice_type.code().to_owned(),
        );
    }
    if old.issuer.vat_number != new.issuer.vat_number {
        push_change(
            &mut changes,
            "issuer.vat_number",
            old.issuer.vat_number.clone(),
            new.issuer.vat_number.clone(),
        );
    }
    match (&old.counterpart, &new.counterpart) {
        (Some(old_cp), Some(new_cp)) => {
            if old_cp.vat_number != new_cp.vat_number {
                push_change(
                    &mut changes,
                    "counterpart.vat_number",
                    old_cp.vat_number.clone(),
                    new_cp.vat_number.clone(),
                );
            }
        },
        _ => {
            if old.counterpart.is_some() != new.counterpart.is_some() {
                push_change(
                    &mut changes,
                    "counterpart",
                    presence(old.counterpart.is_some()),
                    presence(new.counterpart.is_some()),
                );
            }
        },
    }
    if !amount_eq(old.totals.total_net_amount, new.totals.total_net_amount) {
        push_change(
            &mut changes,
            "totals.net_amount",
            amount_text(old.totals.total_net_amount),
            amount_text(new.totals.total_net_amount),
        );
    }
    if !amount_eq(old.totals.total_vat_amount, new.totals.total_vat_amount) {
        push_change(
            &mut changes,
            "totals.vat_amount",
            amount_text(old.totals.total_vat_amount),
            amount_text(new.totals.total_vat_amount),
        );
    }
    if !amount_eq(old.totals.total_gross_amount, new.totals.total_gross_amount) {
        push_change(
            &mut changes,
            "totals.gross_amount",
            amount_text(old.totals.total_gross_amount),
            amount_text(new.totals.total_gross_amount),
        );
    }

    let old_lines = index_lines(&old.lines);
    let new_lines = index_lines(&new.lines);

    let ghost head = header_changes(old@, new@);
    let mut i: usize = 0;
    while i < old.lines.len()
        invariant
            0 <= i <= old.lines.len(),
            head == header_changes(old@, new@),
            indexes(old_lines@, old@.lines, old@.lines.len()),
            indexes(new_lines@, new@.lines, new@.lines.len()),
            change_views(changes@) == with_old_lines(head, old@.lines, new@.lines, i as nat),
        decreases old.lines.len() - i,
    {
        let old_line = &old.lines[i];
        let number = old_line.line_number;
        proof {
            lemma_find_last_hits(new@.lines, number, new@.lines.len());
        }
        let stands = match find_line(&old_lines, number) {
            Some(k) => k == i,
            None => false,
        };
        if stands {
            match find_line(&new_lines, number) {
                Some(j) => {
                    let new_line = &new.lines[j];
                    if !amount_eq(old_line.net_value, new_line.net_value) {
                        let path = numbered_path(number, "].net_value");
                        push_change(
                            &mut changes,
                            path.as_str(),
                            amount_text(old_line.net_value),
                            amount_text(new_line.net_value),
                        );
                    }
                    if old_line.vat_category != new_line.vat_category {
                        let path = numbered_path(number, "].vat_category");
                        push_change(
                            &mut changes,
                            path.as_str(),
                            old_line.vat_category.code().to_owned(),
                            new_line.vat_category.code().to_owned(),
                        );
                    }
                },
                None => {
                    let path = numbered_path(number, "]");
                    push_change(
                        &mut changes,
                        path.as_str(),
                        "Exists".to_owned(),
                        "Deleted".to_owned(),
                    );
                },
            }
        }
        i = i + 1;
    }

    let ghost kept = with_old_lines(head, old@.lines, new@.lines, old@.lines.len());
    let mut i: usize = 0;
    while i < new.lines.len()
        invariant
            0 <= i <= new.lines.len(),
            kept == with_old_lines(head, old@.lines, new@.lines, old@.lines.len()),
            head == header_changes(old@, new@),
            indexes(old_lines@, old@.lines, old@.lines.len()),
            indexes(new_lines@, new@.lines, new@.lines.len()),
            change_views(changes@) == with_new_lines(kept, old@.lines, new@.lines, i as nat),
        decreases new.lines.len() - i,
    {
        let new_line = &new.lines[i];
        let number = new_line.line_number;
        let stands = match find_line(&new_lines, number) {
            Some(k) => k == i,
            None => false,
        };
        if stands && find_line(&old_lines, number).is_none() {
            let path = numbered_path(number, "]");
            push_change(&mut changes, path.as_str(), "None".to_owned(), "Created".to_owned());
        }
        i = i + 1;
    }

    let has_changes = changes.len() > 0;
    InvoiceDiff { has_changes, changes }
}

} // verus!
