//! Changing the schema of a table: which changes keep the data readable.

use vstd::prelude::*;
use vstd::string::*;

use super::data_type::{
    can_evolve_to, decode_data_type_checked, decoded, evolves, type_debug, type_model,
    DecodeOutcome,
};
use super::error::{stands_for, tells, CatalogError, ErrorView, Refusal};
use super::models::{ColumnSpec, ColumnSpecView, SchemaSpec};
use super::rows::{Outcome, Verdict};
use crate::text::{joined3, same_text};

use arrow::datatypes::DataType;

verus! {

/// A column of the current schema, as the catalog database gives it.
#[derive(Debug)]
pub struct CurrentColumnRow {
    /// Column name.
    pub column_name: String,
    /// Encoded column type.
    pub column_type: Vec<u8>,
    /// Whether the column allows null values.
    pub is_nullable: bool,
}

/// The current schema, as the catalog database gives it.
#[derive(Debug)]
pub struct CurrentSchema {
    /// Schema version number.
    pub schema_version: i32,
    /// Columns.
    pub columns: Vec<CurrentColumnRow>,
}

/// A decoded column of the current schema.
#[derive(Debug)]
pub struct CurrentColumn {
    /// Column name.
    pub name: String,
    /// Column type.
    pub column_type: DataType,
    /// Whether the column allows null values.
    pub is_nullable: bool,
}

impl View for CurrentColumn {
    type V = ColumnSpecView;

    open spec fn view(&self) -> ColumnSpecView {
        ColumnSpecView {
            name: self.name@,
            column_type: type_model(self.column_type),
            is_nullable: self.is_nullable,
        }
    }
}

/// What decoded columns hold.
pub open spec fn current_views(columns: Seq<CurrentColumn>) -> Seq<ColumnSpecView> {
    Seq::new(columns.len(), |i: int| columns[i]@)
}

/// What comes of decoding the columns of the current schema, up to the first that fails.
pub open spec fn current_of(rows: Seq<CurrentColumnRow>) -> Outcome<Seq<ColumnSpecView>>
    decreases rows.len(),
{
    if rows.len() == 0 {
        Outcome::Done(Seq::empty())
    } else {
        match current_of(rows.drop_last()) {
            Outcome::Done(columns) => match decoded(rows.last().column_type@) {
                DecodeOutcome::Type(column_type) => Outcome::Done(
                    columns.push(
                        ColumnSpecView {
                            name: rows.last().column_name@,
                            column_type,
                            is_nullable: rows.last().is_nullable,
                        },
                    ),
                ),
                DecodeOutcome::Refused(why) => Outcome::Refused(why),
                DecodeOutcome::Panics => Outcome::Panics,
            },
            stopped => stopped,
        }
    }
}

proof fn current_of_stops(rows: Seq<CurrentColumnRow>, n: nat)
    requires
        n <= rows.len(),
        !(current_of(rows.take(n as int)) is Done),
    ensures
        current_of(rows) == current_of(rows.take(n as int)),
    decreases rows.len(),
{
    if n == rows.len() {
        assert(rows.take(n as int) =~= rows);
    } else {
        assert(rows.drop_last().take(n as int) =~= rows.take(n as int));
        current_of_stops(rows.drop_last(), n);
    }
}

/// Decodes the columns of the current schema.
pub fn decode_current(rows: &Vec<CurrentColumnRow>) -> (r: Verdict<Vec<CurrentColumn>>)
    ensures
        match r {
            Verdict::Done(columns) => current_of(rows@) == Outcome::Done(current_views(columns@)),
            Verdict::Refused(e) => current_of(rows@) is Refused && tells(
                e,
                current_of(rows@)->Refused_0,
            ),
            Verdict::Panics => current_of(rows@) is Panics,
        },
{
    let mut columns: Vec<CurrentColumn> = Vec::new();
    assert(rows@.take(0) =~= Seq::<CurrentColumnRow>::empty());
    assert(current_views(columns@) =~= Seq::<ColumnSpecView>::empty());
    for i in 0..rows.len()
        invariant
            current_of(rows@.take(i as int)) == Outcome::Done(current_views(columns@)),
    {
        proof {
            assert(rows@.take(i + 1).drop_last() =~= rows@.take(i as int));
            assert(rows@.take(i + 1).last() == rows@[i as int]);
        }
        match decode_data_type_checked(rows[i].column_type.as_slice()) {
            Some(Ok(column_type)) => {
                let ghost before = columns@;
                let column = CurrentColumn {
                    name: rows[i].column_name.clone(),
                    column_type,
                    is_nullable: rows[i].is_nullable,
                };
                columns.push(column);
                assert(current_views(columns@) =~= current_views(before).push(column@));
            },
            Some(Err(e)) => {
                proof {
                    current_of_stops(rows@, (i + 1) as nat);
                }
                return Verdict::Refused(e);
            },
            None => {
                proof {
                    current_of_stops(rows@, (i + 1) as nat);
                }
                return Verdict::Panics;
            },
        }
    }
    assert(rows@.take(rows@.len() as int) =~= rows@);
    Verdict::Done(columns)
}

/// A column of that name is among the columns.
pub open spec fn has_column(columns: Seq<ColumnSpecView>, name: Seq<char>) -> bool {
    exists|i: int| 0 <= i < columns.len() && (#[trigger] columns[i]).name == name
}

/// The first column that the new columns lack.
pub open spec fn first_dropped(
    current: Seq<ColumnSpecView>,
    new: Seq<ColumnSpecView>,
) -> Option<Seq<char>>
    decreases current.len(),
{
    if current.len() == 0 {
        None
    } else {
        match first_dropped(current.drop_last(), new) {
            Some(name) => Some(name),
            None => if has_column(new, current.last().name) {
                None
            } else {
                Some(current.last().name)
            },
        }
    }
}

proof fn first_dropped_stays(current: Seq<ColumnSpecView>, new: Seq<ColumnSpecView>, n: nat)
    requires
        n <= current.len(),
        first_dropped(current.take(n as int), new) is Some,
    ensures
        first_dropped(current, new) == first_dropped(current.take(n as int), new),
    decreases current.len(),
{
    if n == current.len() {
        assert(current.take(n as int) =~= current);
    } else {
        assert(current.drop_last().take(n as int) =~= current.take(n as int));
        first_dropped_stays(current.drop_last(), new, n);
    }
}

/// The last column of that name.
pub open spec fn column_named(
    columns: Seq<ColumnSpecView>,
    name: Seq<char>,
) -> Option<ColumnSpecView>
    decreases columns.len(),
{
    if columns.len() == 0 {
        None
    } else if columns.last().name == name {
        Some(columns.last())
    } else {
        column_named(columns.drop_last(), name)
    }
}

/// Why a column cannot become another of the same name, if it cannot: its type must evolve, and
/// it must stay nullable.
pub open spec fn column_change_flaw(old: ColumnSpecView, new: ColumnSpecView) -> Option<Refusal> {
    if !evolves(old.column_type, new.column_type) {
        Some(
            Refusal::CannotEvolve {
                column: new.name,
                from: old.column_type,
                to: new.column_type,
            },
        )
    } else if old.is_nullable && !new.is_nullable {
        Some(
            Refusal::Exact(
                ErrorView::InvalidArgument(
                    "invalid schema evolution for column '"@ + new.name
                        + "': cannot change from nullable to non-nullable (existing nulls would violate constraint)"@,
                ),
            ),
        )
    } else {
        None
    }
}

/// Why the first of the new columns that cannot be is refused. Columns that are new can always
/// be.
pub open spec fn columns_change_flaw(
    current: Seq<ColumnSpecView>,
    new: Seq<ColumnSpecView>,
) -> Option<Refusal>
    decreases new.len(),
{
    if new.len() == 0 {
        None
    } else {
        match columns_change_flaw(current, new.drop_last()) {
            Some(why) => Some(why),
            None => match column_named(current, new.last().name) {
                Some(old) => column_change_flaw(old, new.last()),
                None => None,
            },
        }
    }
}

proof fn columns_change_flaw_stays(current: Seq<ColumnSpecView>, new: Seq<ColumnSpecView>, n: nat)
    requires
        n <= new.len(),
        columns_change_flaw(current, new.take(n as int)) is Some,
    ensures
        columns_change_flaw(current, new) == columns_change_flaw(current, new.take(n as int)),
    decreases new.len(),
{
    if n == new.len() {
        assert(new.take(n as int) =~= new);
    } else {
        assert(new.drop_last().take(n as int) =~= new.take(n as int));
        columns_change_flaw_stays(current, new.drop_last(), n);
    }
}

/// Why a schema cannot become another, if it cannot: no column may go, and each that stays must
/// evolve.
pub open spec fn schema_change_flaw(
    current: Seq<ColumnSpecView>,
    new: Seq<ColumnSpecView>,
) -> Option<Refusal> {
    match first_dropped(current, new) {
        Some(name) => Some(
            Refusal::Exact(
                ErrorView::InvalidArgument(
                    "cannot drop existing column '"@ + name + "' via UpdateSchema"@,
                ),
            ),
        ),
        None => columns_change_flaw(current, new),
    }
}

fn contains_name(columns: &Vec<ColumnSpec>, name: &str, Ghost(views): Ghost<Seq<ColumnSpecView>>) -> (r: bool)
    requires
        views == Seq::new(columns@.len(), |i: int| columns@[i]@),
    ensures
        r == has_column(views, name@),
{
    for i in 0..columns.len()
        invariant
            views == Seq::new(columns@.len(), |i: int| columns@[i]@),
            forall|k: int| 0 <= k < i ==> (#[trigger] views[k]).name != name@,
    {
        if same_text(columns[i].name.as_str(), name) {
            assert(views[i as int].name == name@);
            return true;
        }
    }
    false
}

fn find_column(columns: &Vec<CurrentColumn>, name: &str) -> (r: Option<usize>)
    ensures
        match r {
            Some(i) => i < columns@.len() && column_named(current_views(columns@), name@) == Some(
                columns@[i as int]@,
            ),
            None => column_named(current_views(columns@), name@) is None,
        },
{
    let ghost views = current_views(columns@);
    let mut n: usize = columns.len();
    assert(views.take(n as int) =~= views);
    while n > 0
        invariant
            n <= columns@.len(),
            views == current_views(columns@),
            column_named(views, name@) == column_named(views.take(n as int), name@),
        decreases n,
    {
        proof {
            assert(views.take(n as int).drop_last() =~= views.take(n - 1));
            assert(views.take(n as int).last() == columns@[n - 1]@);
        }
        n = n - 1;
        if same_text(columns[n].name.as_str(), name) {
            return Some(n);
        }
    }
    None
}

fn evolution_error(column: &str, from: &DataType, to: &DataType) -> (r: CatalogError)
    ensures
        tells(
            r,
            (Refusal::CannotEvolve {
                column: column@,
                from: type_model(*from),
                to: type_model(*to),
            }),
        ),
{
    let f = type_debug(from);
    let t = type_debug(to);
    let mut text = joined3(
        "invalid schema evolution for column '",
        column,
        "': cannot evolve ",
    );
    text.append(f.as_str());
    text.append(" to ");
    text.append(t.as_str());
    assert(stands_for(f@, type_model(*from)) && stands_for(t@, type_model(*to)));
    CatalogError::InvalidArgument(text)
}

/// Checks that a schema can become another.
pub fn check_schema_change(current: &Vec<CurrentColumn>, new: &SchemaSpec) -> (r: Result<
    (),
    CatalogError,
>)
    ensures
        match r {
            Ok(_) => schema_change_flaw(current_views(current@), new@) is None,
            Err(e) => schema_change_flaw(current_views(current@), new@) is Some && tells(
                e,
                schema_change_flaw(current_views(current@), new@)->0,
            ),
        },
{
    let ghost old_views = current_views(current@);
    let ghost new_views = new@;
    assert(old_views.take(0) =~= Seq::<ColumnSpecView>::empty());
    for i in 0..current.len()
        invariant
            old_views == current_views(current@),
            new_views == new@,
            first_dropped(old_views.take(i as int), new_views) is None,
    {
        proof {
            assert(old_views.take(i + 1).drop_last() =~= old_views.take(i as int));
            assert(old_views.take(i + 1).last() == current@[i as int]@);
        }
        let name = current[i].name.as_str();
        if !contains_name(&new.columns, name, Ghost(new_views)) {
            proof {
                first_dropped_stays(old_views, new_views, (i + 1) as nat);
            }
            return Err(
                CatalogError::InvalidArgument(
                    joined3("cannot drop existing column '", name, "' via UpdateSchema"),
                ),
            );
        }
    }
    assert(old_views.take(old_views.len() as int) =~= old_views);
    assert(new_views.take(0) =~= Seq::<ColumnSpecView>::empty());
    for i in 0..new.columns.len()
        invariant
            old_views == current_views(current@),
            new_views == new@,
            first_dropped(old_views, new_views) is None,
            columns_change_flaw(old_views, new_views.take(i as int)) is None,
    {
        let column = &new.columns[i];
        proof {
            assert(new_views.take(i + 1).drop_last() =~= new_views.take(i as int));
            assert(new_views.take(i + 1).last() == column@);
            if columns_change_flaw(old_views, new_views.take(i + 1)) is Some {
                columns_change_flaw_stays(old_views, new_views, (i + 1) as nat);
            }
        }
        if let Some(k) = find_column(current, column.name.as_str()) {
            let old = &current[k];
            if !can_evolve_to(&old.column_type, &column.column_type) {
                return Err(
                    evolution_error(column.name.as_str(), &old.column_type, &column.column_type),
                );
            }
            if old.is_nullable && !column.is_nullable {
                return Err(
                    CatalogError::InvalidArgument(
                        joined3(
                            "invalid schema evolution for column '",
                            column.name.as_str(),
                            "': cannot change from nullable to non-nullable (existing nulls would violate constraint)",
                        ),
                    ),
                );
            }
        }
    }
    assert(new_views.take(new_views.len() as int) =~= new_views);
    Ok(())
}

/// A change of schema that is accepted keeps every column: each is in the new schema under its
/// name.
pub proof fn accepted_change_keeps_columns(
    current: Seq<ColumnSpecView>,
    new: Seq<ColumnSpecView>,
    i: int,
)
    requires
        schema_change_flaw(current, new) is None,
        0 <= i < current.len(),
    ensures
        has_column(new, current[i].name),
    decreases current.len(),
{
    if i < current.len() - 1 {
        assert(current.drop_last()[i] == current[i]);
        dropped_none_keeps(current.drop_last(), new, i);
    }
}

proof fn dropped_none_keeps(current: Seq<ColumnSpecView>, new: Seq<ColumnSpecView>, i: int)
    requires
        first_dropped(current, new) is None,
        0 <= i < current.len(),
    ensures
        has_column(new, current[i].name),
    decreases current.len(),
{
    if i < current.len() - 1 {
        assert(current.drop_last()[i] == current[i]);
        dropped_none_keeps(current.drop_last(), new, i);
    }
}

/// A change of schema that is accepted keeps the data of every column readable: the column's
/// type evolves to its new type, and a column that may hold nulls still may. Names differ within
/// each of the two schemas.
pub proof fn accepted_change_keeps_data_readable(
    current: Seq<ColumnSpecView>,
    new: Seq<ColumnSpecView>,
    i: int,
    j: int,
)
    requires
        schema_change_flaw(current, new) is None,
        forall|a: int, b: int|
            0 <= a < b < current.len() ==> (#[trigger] current[a]).name != (
            #[trigger] current[b]).name,
        0 <= i < current.len(),
        0 <= j < new.len(),
        current[i].name == new[j].name,
    ensures
        evolves(current[i].column_type, new[j].column_type),
        current[i].is_nullable ==> new[j].is_nullable,
{
    no_flaw_at(current, new, j);
    named_is_unique(current, i);
}

proof fn no_flaw_at(current: Seq<ColumnSpecView>, new: Seq<ColumnSpecView>, j: int)
    requires
        columns_change_flaw(current, new) is None,
        0 <= j < new.len(),
    ensures
        column_named(current, new[j].name) matches Some(old) ==> column_change_flaw(
            old,
            new[j],
        ) is None,
    decreases new.len(),
{
    if j < new.len() - 1 {
        assert(new.drop_last()[j] == new[j]);
        no_flaw_at(current, new.drop_last(), j);
    }
}

/// Where names differ, a column is the one of its name.
pub proof fn named_is_unique(columns: Seq<ColumnSpecView>, i: int)
    requires
        forall|a: int, b: int|
            0 <= a < b < columns.len() ==> (#[trigger] columns[a]).name != (
            #[trigger] columns[b]).name,
        0 <= i < columns.len(),
    ensures
        column_named(columns, columns[i].name) == Some(columns[i]),
    decreases columns.len(),
{
    if i < columns.len() - 1 {
        let front = columns.drop_last();
        assert(front[i] == columns[i]);
        assert forall|a: int, b: int| 0 <= a < b < front.len() implies (#[trigger] front[a]).name
            != (#[trigger] front[b]).name by {
            assert(columns[a].name != columns[b].name);
        }
        named_is_unique(front, i);
        assert(columns[i].name != columns[columns.len() - 1].name);
    }
}

} // verus!
