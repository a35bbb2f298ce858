use crate::business_obj::BusinessObject;
use crate::error::ReferenceError;
use crate::flok::Animal;
use crate::flok::Flok;
use crate::root::RootHandle;
use crate::text::opt_text;
use crate::text::owned;
use vstd::prelude::*;

verus! {

/// Both tables, that of a flock's animals and that of an animal's events,
/// have this many columns; the last one holds the edit button of the row.
pub const COLUMN_COUNT: usize = 5;

/// The column that holds the edit button, of which no cell has a text.
pub const EDIT_COLUMN: i32 = 4;

/// The heading of column `col` of the table of animals.
pub open spec fn flok_heading(col: int) -> Seq<char> {
    if col == 0 {
        "ID"@
    } else if col == 1 {
        "Born"@
    } else if col == 2 {
        "Dame"@
    } else if col == 3 {
        "Description"@
    } else {
        "Edit"@
    }
}

/// The heading of column `col` of the table of events.
pub open spec fn event_heading(col: int) -> Seq<char> {
    if col == 0 {
        "Name"@
    } else if col == 1 {
        "Date"@
    } else if col == 2 {
        "Value"@
    } else if col == 3 {
        "Notes"@
    } else {
        "Edit"@
    }
}

/// The width of column `col` in either table.
pub open spec fn width_of(col: int) -> int {
    if col == 3 {
        120
    } else if col == 4 {
        40
    } else {
        60
    }
}

/// The heading of column `col` of the table of animals.
pub fn flok_header(col: usize) -> (r: String)
    requires
        col < COLUMN_COUNT,
    ensures
        r@ == flok_heading(col as int),
{
    if col == 0 {
        owned("ID")
    } else if col == 1 {
        owned("Born")
    } else if col == 2 {
        owned("Dame")
    } else if col == 3 {
        owned("Description")
    } else {
        owned("Edit")
    }
}

/// The heading of column `col` of the table of events.
pub fn event_header(col: usize) -> (r: String)
    requires
        col < COLUMN_COUNT,
    ensures
        r@ == event_heading(col as int),
{
    if col == 0 {
        owned("Name")
    } else if col == 1 {
        owned("Date")
    } else if col == 2 {
        owned("Value")
    } else if col == 3 {
        owned("Notes")
    } else {
        owned("Edit")
    }
}

/// The width of column `col` in either table.
pub fn column_width(col: usize) -> (r: u32)
    requires
        col < COLUMN_COUNT,
    ensures
        r == width_of(col as int),
{
    if col == 3 {
        120
    } else if col == 4 {
        40
    } else {
        60
    }
}

/// Whether a table of `count` rows has a row `row`, so that the row has an
/// edit button.
pub fn has_row(count: usize, row: i32) -> (b: bool)
    ensures
        b == (0 <= row < count),
{
    row >= 0 && (row as usize) < count
}

/// Whether the cell at `row` and `col` of a table of `count` rows holds a
/// text: the row exists and the column is one of the four before the edit
/// column.
pub open spec fn is_text_cell(count: int, row: int, col: int) -> bool {
    0 <= row < count && 0 <= col < EDIT_COLUMN
}

impl Flok {
    /// The number of rows of the table of animals.
    pub fn row_count(&self) -> (n: usize)
        ensures
            n == self.animals.len(),
    {
        self.animals.len()
    }

    /// The text of a cell of the table of animals: the most recent id, the
    /// date of birth, the dam and the description of the animal of that row.
    pub open spec fn cell_text(&self, row: int, col: int) -> Seq<char> {
        let animal = self.animals[row];
        if col == 0 {
            animal.id[0]@
        } else if col == 1 {
            match animal.born {
                Some(born) => born.shown(),
                None => Seq::empty(),
            }
        } else if col == 2 {
            match animal.dam {
                Some(dam) => dam@,
                None => Seq::empty(),
            }
        } else {
            animal.description@
        }
    }

    /// What the table of animals shows at `row` and `col`: a text in the
    /// four columns before the edit column of a row that the flock has, and
    /// nothing elsewhere.
    pub open spec fn shown_in(&self, row: int, col: int) -> Option<Seq<char>> {
        if is_text_cell(self.animals.len() as int, row, col) {
            Some(self.cell_text(row, col))
        } else {
            None
        }
    }

    /// The text of the cell at `row` and `col` of the table of animals;
    /// `None` for a row that the flock does not have, for the edit column and
    /// for a column past it.
    pub fn cell(&self, row: i32, col: i32) -> (r: Option<String>)
        requires
            0 <= row < self.animals.len() ==> col >= 0,
            0 <= row < self.animals.len() && col == 0 ==> self.animals[row as int].id.len() > 0,
        ensures
            opt_text(r) == self.shown_in(row as int, col as int),
    {
        if !has_row(self.animals.len(), row) || col >= EDIT_COLUMN {
            return None;
        }
        let animal = &self.animals[row as usize];
        if col == 0 {
            Some(animal.id[0].clone())
        } else if col == 1 {
            match &animal.born {
                Some(born) => Some(born.text()),
                None => Some(String::new()),
            }
        } else if col == 2 {
            match &animal.dam {
                Some(dam) => Some(dam.clone()),
                None => Some(String::new()),
            }
        } else {
            Some(animal.description.clone())
        }
    }
}

impl Flok {
    /// The cell at `row` and `col` asks for the id of an animal that the
    /// flock has and that goes by no id.
    pub open spec fn lacks_id(&self, row: int, col: int) -> bool {
        0 <= row < self.animals.len() && col == 0 && self.animals[row].id.len() == 0
    }

    /// What the table of animals shows in a cell, whatever the flock holds:
    /// `NotFound` where the first column asks for the id of an animal that
    /// has none, no text for a column before the first, and else what `cell`
    /// gives.
    pub fn try_cell(&self, row: i32, col: i32) -> (r: Result<Option<String>, ReferenceError>)
        ensures
            match r {
                Ok(shown) => opt_text(shown) == self.shown_in(row as int, col as int),
                Err(e) => e == ReferenceError::NotFound,
            },
            r is Err <==> self.lacks_id(row as int, col as int),
    {
        if has_row(self.animals.len(), row) {
            if col < 0 {
                return Ok(None);
            }
            if col == 0 && self.animals[row as usize].id.len() == 0 {
                return Err(ReferenceError::NotFound);
            }
        }
        Ok(self.cell(row, col))
    }
}

impl Animal {
    /// What the table of events shows in a cell, whatever the animal holds:
    /// no text for a column before the first, and else what `cell` gives.
    pub fn try_cell(&self, row: i32, col: i32) -> (r: Option<String>)
        ensures
            opt_text(r) == self.shown_in(row as int, col as int),
    {
        if has_row(self.events.len(), row) && col < 0 {
            return None;
        }
        self.cell(row, col)
    }
}

impl Animal {
    /// The number of rows of the table of the animal's events.
    pub fn row_count(&self) -> (n: usize)
        ensures
            n == self.events.len(),
    {
        self.events.len()
    }

    /// The text of a cell of the table of events: the name, the date, the
    /// value and the notes of the event of that row.
    pub open spec fn cell_text(&self, row: int, col: int) -> Seq<char> {
        let event = self.events[row];
        if col == 0 {
            event.name@
        } else if col == 1 {
            event.date.shown()
        } else if col == 2 {
            event.value@
        } else {
            event.notes@
        }
    }

    /// What the table of events shows at `row` and `col`: a text in the four
    /// columns before the edit column of a row that the animal has, and
    /// nothing elsewhere.
    pub open spec fn shown_in(&self, row: int, col: int) -> Option<Seq<char>> {
        if is_text_cell(self.events.len() as int, row, col) {
            Some(self.cell_text(row, col))
        } else {
            None
        }
    }

    /// The text of the cell at `row` and `col` of the table of the animal's
    /// events; `None` for a row that the animal does not have, for the edit
    /// column and for a column past it.
    pub fn cell(&self, row: i32, col: i32) -> (r: Option<String>)
        requires
            0 <= row < self.events.len() ==> col >= 0,
        ensures
            opt_text(r) == self.shown_in(row as int, col as int),
    {
        if !has_row(self.events.len(), row) || col >= EDIT_COLUMN {
            return None;
        }
        let event = &self.events[row as usize];
        if col == 0 {
            Some(event.name.clone())
        } else if col == 1 {
            Some(event.date.text())
        } else if col == 2 {
            Some(event.value.clone())
        } else {
            Some(event.notes.clone())
        }
    }
}

/// The table of the animals of a flock, one row for each animal.
pub struct FlokTableModel {
    pub flok: RootHandle<Flok>,
}

impl FlokTableModel {
    /// The table of the animals of the flock behind `flok`.
    pub fn new(flok: RootHandle<Flok>) -> (model: Self)
        ensures
            model.flok == flok,
    {
        FlokTableModel { flok }
    }

    /// The number of rows: what `Flok::row_count` gives for the flock that
    /// the lock holds now. What the lock holds has no model in the
    /// contracts, so of this call only the error is stated.
    pub fn row_count(&self) -> (r: Result<usize, ReferenceError>)
        ensures
            r matches Err(e) ==> e == ReferenceError::PoisonedState,
    {
        let count = |flok: &mut Flok| -> (n: usize)
            ensures
                n == old(flok).animals.len(),
            { flok.row_count() };
        self.flok.execute(count)
    }

    /// The number of columns.
    pub fn column_count(&self) -> (n: usize)
        ensures
            n == COLUMN_COUNT,
    {
        COLUMN_COUNT
    }

    /// The heading of column `col`.
    pub fn header(&self, col: usize) -> (r: String)
        requires
            col < COLUMN_COUNT,
        ensures
            r@ == flok_heading(col as int),
    {
        flok_header(col)
    }

    /// The width of column `col`.
    pub fn column_width(&self, col: usize) -> (r: u32)
        requires
            col < COLUMN_COUNT,
        ensures
            r == width_of(col as int),
    {
        column_width(col)
    }

    /// The text of the cell at `row` and `col`, read from the flock that the
    /// lock holds now: what `Flok::try_cell` gives for it. `NotFound` comes
    /// only for a cell of the first column whose animal goes by no id.
    pub fn cell(&self, row: i32, col: i32) -> (r: Result<Option<String>, ReferenceError>)
        ensures
            match r {
                Ok(shown) => exists|flok: Flok|
                    !flok.lacks_id(row as int, col as int) && opt_text(shown)
                        == #[trigger] flok.shown_in(row as int, col as int),
                Err(e) => e == ReferenceError::PoisonedState || (e == ReferenceError::NotFound
                    && exists|flok: Flok| #[trigger] flok.lacks_id(row as int, col as int)),
            },
    {
        let read = |flok: &mut Flok| -> (shown: Result<Option<String>, ReferenceError>)
            ensures
                match shown {
                    Ok(shown) => opt_text(shown) == old(flok).shown_in(row as int, col as int),
                    Err(e) => e == ReferenceError::NotFound,
                },
                shown is Err <==> old(flok).lacks_id(row as int, col as int),
            { flok.try_cell(row, col) };
        match self.flok.execute(read) {
            Ok(inner) => {
                proof {
                    let t = choose|t: &mut Flok| #[trigger] read.ensures((t,), inner);
                    let flok = *t;
                    if inner is Ok {
                        assert(!flok.lacks_id(row as int, col as int) && opt_text(inner->Ok_0)
                            == flok.shown_in(row as int, col as int));
                    } else {
                        assert(flok.lacks_id(row as int, col as int));
                    }
                }
                inner
            },
            Err(e) => Err(e),
        }
    }
}

/// The table of the events of an animal, one row for each event.
pub struct EventTableModel<A: BusinessObject<Type = Animal>> {
    pub animal: A,
}

impl<A: BusinessObject<Type = Animal>> EventTableModel<A> {
    /// The table of the events of the animal that `animal` refers to.
    pub fn new(animal: A) -> (model: Self)
        ensures
            model.animal == animal,
    {
        EventTableModel { animal }
    }

    /// The number of rows: that of the events that the animal holds now.
    pub fn row_count(&self) -> (r: Result<usize, ReferenceError>)
        ensures
            match r {
                Ok(n) => exists|animal: Animal| #[trigger]
                    self.animal.targets(animal) && n == animal.events.len(),
                Err(e) => e == ReferenceError::PoisonedState || (e == ReferenceError::NotFound
                    && self.animal.may_miss()),
            },
    {
        let count = |animal: &mut Animal| -> (n: usize)
            ensures
                n == old(animal).events.len(),
            { animal.row_count() };
        self.animal.exec(count)
    }

    /// The number of columns.
    pub fn column_count(&self) -> (n: usize)
        ensures
            n == COLUMN_COUNT,
    {
        COLUMN_COUNT
    }

    /// The heading of column `col`.
    pub fn header(&self, col: usize) -> (r: String)
        requires
            col < COLUMN_COUNT,
        ensures
            r@ == event_heading(col as int),
    {
        event_header(col)
    }

    /// The width of column `col`.
    pub fn column_width(&self, col: usize) -> (r: u32)
        requires
            col < COLUMN_COUNT,
        ensures
            r == width_of(col as int),
    {
        column_width(col)
    }

    /// The text of the cell at `row` and `col`, read from the animal as it
    /// is now: what `Animal::try_cell` gives for some animal that the
    /// reference may be handed.
    pub fn cell(&self, row: i32, col: i32) -> (r: Result<Option<String>, ReferenceError>)
        ensures
            match r {
                Ok(shown) => exists|animal: Animal|
                    self.animal.targets(animal) && opt_text(shown) == #[trigger] animal.shown_in(
                        row as int,
                        col as int,
                    ),
                Err(e) => e == ReferenceError::PoisonedState || (e == ReferenceError::NotFound
                    && self.animal.may_miss()),
            },
    {
        let read = |animal: &mut Animal| -> (shown: Option<String>)
            ensures
                opt_text(shown) == old(animal).shown_in(row as int, col as int),
            { animal.try_cell(row, col) };
        let r = self.animal.exec(read);
        proof {
            if r is Ok {
                let t = choose|t: &mut Animal|
                    self.animal.targets(*t) && #[trigger] read.ensures((t,), r->Ok_0);
                let animal = *t;
                assert(self.animal.targets(animal) && opt_text(r->Ok_0) == animal.shown_in(
                    row as int,
                    col as int,
                ));
            }
        }
        r
    }
}

} // verus!
