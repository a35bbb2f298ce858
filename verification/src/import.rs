use crate::date::Date;
use crate::flok::Animal;
use crate::flok::AnimalView;
use crate::flok::Flok;
use crate::flok::Sex;
use crate::text::lowercase;
use crate::text::non_blank;
use crate::text::owned;
use crate::text::some_string;
use crate::text::texts;
use vstd::prelude::*;

verus! {

/// One cell of a sheet that is being imported: the text that the sheet shows
/// in it and, where the sheet holds a date and time there, that date.
#[derive(Debug, Clone, PartialEq, Eq)]
pub struct ImportCell {
    pub text: String,
    pub date: Option<Date>,
}

/// What an animal holds after a cell under the heading `header` was taken
/// into it. The heading decides, in any mix of upper and lower case: "id"
/// adds the text as one more id, "born" sets the date of birth to the cell's
/// date, "sire" and "dam" set that parent to the text unless it is blank,
/// "sex" sets the sex that the text names, and any other heading changes
/// nothing.
pub open spec fn with_cell(
    animal: AnimalView,
    header: Seq<char>,
    text: Seq<char>,
    date: Option<Date>,
) -> AnimalView {
    with_keyed_cell(animal, lowercase(header), text, date)
}

/// What an animal holds after a cell was taken into it under `key`, the
/// heading of its column in lower case.
pub open spec fn with_keyed_cell(
    animal: AnimalView,
    key: Seq<char>,
    text: Seq<char>,
    date: Option<Date>,
) -> AnimalView {
    if key == "id"@ {
        AnimalView { id: animal.id.push(text), ..animal }
    } else if key == "born"@ {
        AnimalView { born: date, ..animal }
    } else if key == "sire"@ {
        AnimalView { sire: non_blank(text), ..animal }
    } else if key == "dam"@ {
        AnimalView { dam: non_blank(text), ..animal }
    } else if key == "sex"@ {
        AnimalView { sex: Sex::named_by(text), ..animal }
    } else {
        animal
    }
}

/// What an animal of which nothing is known holds after the first `count`
/// cells of a row were taken into it, each under the heading of its column.
pub open spec fn row_view(headers: Seq<String>, cells: Seq<ImportCell>, count: nat) -> AnimalView
    decreases count,
{
    if count == 0 {
        AnimalView::unknown()
    } else {
        with_cell(
            row_view(headers, cells, (count - 1) as nat),
            headers[count - 1]@,
            cells[count - 1].text@,
            cells[count - 1].date,
        )
    }
}

/// The number of cells of a row that stand under a heading.
pub open spec fn headed(headers: Seq<String>, cells: Seq<ImportCell>) -> nat {
    if headers.len() <= cells.len() {
        headers.len()
    } else {
        cells.len()
    }
}

impl Animal {
    /// Takes one cell of a sheet into the animal, as the heading of its
    /// column says.
    pub fn take_cell(&mut self, header: &str, cell: &ImportCell)
        ensures
            final(self)@ == with_cell(old(self)@, header@, cell.text@, cell.date),
    {
        let key = header.to_lowercase();
        self.take_keyed_cell(key.as_str(), cell);
    }

    /// Takes one cell of a sheet into the animal under `key`, the heading of
    /// its column in lower case.
    pub fn take_keyed_cell(&mut self, key: &str, cell: &ImportCell)
        ensures
            final(self)@ == with_keyed_cell(old(self)@, key@, cell.text@, cell.date),
    {
        let key = owned(key);
        if key == owned("id") {
            self.id.push(cell.text.clone());
            assert(texts(self.id@) =~= texts(old(self).id@).push(cell.text@));
        } else if key == owned("born") {
            self.born = cell.date;
        } else if key == owned("sire") {
            self.sire = some_string(cell.text.clone());
        } else if key == owned("dam") {
            self.dam = some_string(cell.text.clone());
        } else if key == owned("sex") {
            self.sex = Sex::from(cell.text.clone());
        }
    }

    /// The animal that a row of a sheet describes: each cell that stands
    /// under a heading is taken in, from the left; cells past the last
    /// heading are ignored.
    pub fn from_row(headers: &Vec<String>, cells: &Vec<ImportCell>) -> (animal: Animal)
        ensures
            animal@ == row_view(headers@, cells@, headed(headers@, cells@)),
    {
        let mut animal = Animal::default();
        let mut i: usize = 0;
        while i < headers.len() && i < cells.len()
            invariant
                i <= headers.len(),
                i <= cells.len(),
                animal@ == row_view(headers@, cells@, i as nat),
            decreases headers.len() - i,
        {
            animal.take_cell(headers[i].as_str(), &cells[i]);
            i += 1;
        }
        animal
    }
}

impl Flok {
    /// Adds to the flock one animal for each row of a sheet, in the order of
    /// the rows.
    pub fn import(&mut self, headers: &Vec<String>, rows: &Vec<Vec<ImportCell>>)
        ensures
            final(self).name == old(self).name,
            final(self).animals@.len() == old(self).animals@.len() + rows@.len(),
            forall|k: int|
                0 <= k < old(self).animals@.len() ==> final(self).animals@[k] == old(
                    self,
                ).animals@[k],
            forall|k: int|
                0 <= k < rows@.len() ==> (#[trigger] final(self).animals@[old(self).animals@.len()
                    + k])@ == row_view(headers@, rows@[k]@, headed(headers@, rows@[k]@)),
    {
        let mut i: usize = 0;
        while i < rows.len()
            invariant
                i <= rows.len(),
                self.name == old(self).name,
                self.animals@.len() == old(self).animals@.len() + i,
                forall|k: int|
                    0 <= k < old(self).animals@.len() ==> self.animals@[k] == old(self).animals@[k],
                forall|k: int|
                    0 <= k < i ==> (#[trigger] self.animals@[old(self).animals@.len() + k])@
                        == row_view(headers@, rows@[k]@, headed(headers@, rows@[k]@)),
            decreases rows.len() - i,
        {
            let animal = Animal::from_row(headers, &rows[i]);
            self.animals.push(animal);
            i += 1;
        }
    }
}

} // verus!
