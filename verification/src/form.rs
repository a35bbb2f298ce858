use crate::date::Date;
use crate::flok::event_views;
use crate::flok::Animal;
use crate::flok::AnimalView;
use crate::flok::Event;
use crate::flok::EventView;
use crate::flok::Sex;
use crate::text::ends_with;
use crate::text::has_suffix;
use crate::text::join;
use crate::text::joined;
use crate::text::owned;
use crate::text::pieces;
use crate::text::split_on;
use crate::text::texts;
use crate::text::trimmed;
use vstd::prelude::*;
use vstd::string::StringExecFns;

verus! {

/// What an editor of a value of type `T` offers: to show a value, and to
/// write what the user entered back into the value that it edits.
pub trait Editor<T> {
    /// Shows `value` in the editor.
    fn set_value(&mut self, value: &T);

    /// Writes what the editor holds back into the value that it edits.
    fn commit(&mut self);
}

/// What the form of an animal holds, field by field, as the user sees and
/// edits it.
#[derive(Debug, Clone, PartialEq, Eq)]
pub struct AnimalFields {
    /// The ids of the animal, separated by commas.
    pub identity: String,
    /// The place of the chosen sex in the list of choices; -1 when none is
    /// chosen.
    pub sex: i32,
    pub born: String,
    pub description: String,
    pub sire: String,
    pub dame: String,
}

/// What the form of an event holds, field by field.
#[derive(Debug, Clone, PartialEq, Eq)]
pub struct EventFields {
    pub name: String,
    pub date: String,
    pub value: String,
    pub notes: String,
}

/// The ids that the identity field names: the pieces between its commas,
/// each without the white space at its two ends.
pub open spec fn ids_named(identity: Seq<char>) -> Seq<Seq<char>> {
    pieces(identity, ',').map_values(|piece: Seq<char>| trimmed(piece))
}

/// The parent that a field names: none for an empty field.
pub open spec fn parent_named(field: Seq<char>) -> Option<Seq<char>> {
    if field.len() == 0 {
        None
    } else {
        Some(field)
    }
}

/// The text of a field that shows an optional text: empty for none.
pub open spec fn shown_or_empty(text: Option<Seq<char>>) -> Seq<char> {
    match text {
        Some(t) => t,
        None => Seq::empty(),
    }
}

/// The name under which a flock is saved: the chosen name, with ".flok" put
/// behind it unless it ends so already.
pub open spec fn saved_as(file: Seq<char>) -> Seq<char> {
    if has_suffix(file, ".flok"@) {
        file
    } else {
        file + ".flok"@
    }
}

/// The name under which a flock is saved when the user chose `file`.
pub fn flok_file_name(file: String) -> (r: String)
    ensures
        r@ == saved_as(file@),
{
    if ends_with(file.as_str(), ".flok") {
        file
    } else {
        file.concat(".flok")
    }
}

impl Sex {
    /// The sex that the list of choices gives for the number it reports,
    /// which it cuts down to eight bits first: the sex with that ordinal, and
    /// female where there is none.
    pub open spec fn chosen(choice: i32) -> Sex {
        if choice as i8 == 0 {
            Sex::Male
        } else {
            Sex::Female
        }
    }

    /// The sex that the list of choices gives for the number it reports.
    pub fn from_choice(choice: i32) -> (r: Sex)
        ensures
            r == Sex::chosen(choice),
    {
        let number: i8 = #[verifier::truncate]
        (choice as i8);
        match Sex::from_ordinal(number) {
            Some(sex) => sex,
            None => Sex::default(),
        }
    }
}

impl Animal {
    /// What the form shows for this animal.
    pub fn fields(&self) -> (r: AnimalFields)
        ensures
            r.identity@ == joined(self@.id, ", "@),
            r.sex == self.sex.ordinal_of(),
            r.born@ == match self.born {
                Some(born) => born.shown(),
                None => Seq::empty(),
            },
            r.description@ == self@.description,
            r.sire@ == shown_or_empty(self@.sire),
            r.dame@ == shown_or_empty(self@.dam),
    {
        AnimalFields {
            identity: join(&self.id, ", "),
            sex: self.sex.ordinal() as i32,
            born: match &self.born {
                Some(born) => born.text(),
                None => String::new(),
            },
            description: self.description.clone(),
            sire: match &self.sire {
                Some(sire) => sire.clone(),
                None => String::new(),
            },
            dame: match &self.dam {
                Some(dam) => dam.clone(),
                None => String::new(),
            },
        }
    }

    /// Writes the fields of the form back into the animal, with `born` as the
    /// date that the field for the date of birth was read as and `events` as
    /// the events of the form's table.
    pub fn commit_with(&mut self, fields: &AnimalFields, born: Option<Date>, events: Vec<Event>)
        ensures
            final(self)@ == (AnimalView {
                id: ids_named(fields.identity@),
                born: born,
                sire: parent_named(fields.sire@),
                dam: parent_named(fields.dame@),
                description: fields.description@,
                events: event_views(events@),
                sex: Sex::chosen(fields.sex),
            }),
    {
        let named = split_on(fields.identity.as_str(), ',');
        let mut ids: Vec<String> = Vec::new();
        let mut i: usize = 0;
        while i < named.len()
            invariant
                i <= named.len(),
                ids@.len() == i,
                forall|k: int| 0 <= k < i ==> (#[trigger] ids@[k])@ == trimmed(named@[k]@),
            decreases named.len() - i,
        {
            ids.push(owned(named[i].as_str().trim()));
            i += 1;
        }
        assert(texts(ids@) =~= ids_named(fields.identity@));
        self.id = ids;
        self.born = born;
        self.sire = if fields.sire.as_str().is_empty() {
            None
        } else {
            Some(fields.sire.clone())
        };
        self.dam = if fields.dame.as_str().is_empty() {
            None
        } else {
            Some(fields.dame.clone())
        };
        self.description = fields.description.clone();
        self.events = events;
        self.sex = Sex::from_choice(fields.sex);
    }
}

impl Event {
    /// What the form shows for this event.
    pub fn fields(&self) -> (r: EventFields)
        ensures
            r.name@ == self.name@,
            r.date@ == self.date.shown(),
            r.value@ == self.value@,
            r.notes@ == self.notes@,
    {
        EventFields {
            name: self.name.clone(),
            date: self.date.text(),
            value: self.value.clone(),
            notes: self.notes.clone(),
        }
    }

    /// Writes the fields of the form back into the event, with `date` as the
    /// date that the date field was read as; a field that holds no date dates
    /// the event at `now`.
    pub fn commit_with(&mut self, fields: &EventFields, date: Option<Date>, now: Date)
        ensures
            final(self)@ == (EventView {
                name: fields.name@,
                value: fields.value@,
                date: match date {
                    Some(date) => date,
                    None => now,
                },
                notes: fields.notes@,
            }),
    {
        self.name = fields.name.clone();
        self.date = match date {
            Some(date) => date,
            None => now,
        };
        self.value = fields.value.clone();
        self.notes = fields.notes.clone();
    }
}

} // verus!
