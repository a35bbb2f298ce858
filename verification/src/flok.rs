use crate::date::Date;
use crate::text::lowercase;
use crate::text::opt_text;
use crate::text::owned;
use crate::text::texts;
use vstd::prelude::*;
use vstd::std_specs::convert::FromSpecImpl;

verus! {

/// An animal is known by one or more of these; the first is the most recent.
pub type Id = String;

/// The sex of an animal.
#[derive(Debug, Clone, Copy, PartialEq, Eq, Structural)]
pub enum Sex {
    Male,
    Female,
}

impl Sex {
    /// The name shown for this sex.
    pub fn name(&self) -> (r: &str)
        ensures
            r@ == self.name_text(),
    {
        match self {
            Sex::Male => "Male",
            Sex::Female => "Female",
        }
    }

    /// The name of this sex as a text.
    pub open spec fn name_text(&self) -> Seq<char> {
        match self {
            Sex::Male => "Male"@,
            Sex::Female => "Female"@,
        }
    }

    /// The place of this sex among the variants, counted from zero.
    pub open spec fn ordinal_of(self) -> int {
        match self {
            Sex::Male => 0,
            Sex::Female => 1,
        }
    }

    /// The place of this sex among the variants, counted from zero.
    pub fn ordinal(&self) -> (n: i8)
        ensures
            n == self.ordinal_of(),
    {
        match self {
            Sex::Male => 0,
            Sex::Female => 1,
        }
    }

    /// The sex at place `number` among the variants, if there is one.
    pub fn from_ordinal(number: i8) -> (r: Option<Sex>)
        ensures
            match r {
                Some(sex) => sex.ordinal_of() == number,
                None => number != 0 && number != 1,
            },
    {
        if number == 0 {
            Some(Sex::Male)
        } else if number == 1 {
            Some(Sex::Female)
        } else {
            None
        }
    }

    /// All the variants, in the order of their ordinals.
    pub fn variants() -> (all: Vec<Sex>)
        ensures
            all@ == seq![Sex::Male, Sex::Female],
    {
        let mut all = Vec::new();
        all.push(Sex::Male);
        all.push(Sex::Female);
        all
    }

    /// The sex that a text in lower case names: male for "m" and "male",
    /// female for every other text.
    pub open spec fn named_in_lowercase(lower: Seq<char>) -> Sex {
        if lower == "m"@ || lower == "male"@ {
            Sex::Male
        } else {
            Sex::Female
        }
    }

    /// The sex that a text names: male for "m" and "male" in any mix of
    /// upper and lower case, female for every other text.
    pub open spec fn named_by(text: Seq<char>) -> Sex {
        Sex::named_in_lowercase(lowercase(text))
    }

    /// The sex that a text in lower case names.
    pub fn from_lowercase(lower: &str) -> (r: Sex)
        ensures
            r == Sex::named_in_lowercase(lower@),
    {
        let lower = owned(lower);
        if lower == owned("m") || lower == owned("male") {
            Sex::Male
        } else {
            Sex::Female
        }
    }
}

impl Default for Sex {
    fn default() -> (r: Self)
        ensures
            r == Sex::Female,
    {
        Sex::Female
    }
}

impl From<String> for Sex {
    fn from(s: String) -> (r: Self) {
        let lower = s.as_str().to_lowercase();
        Sex::from_lowercase(lower.as_str())
    }
}

impl FromSpecImpl<String> for Sex {
    open spec fn obeys_from_spec() -> bool {
        true
    }

    open spec fn from_spec(s: String) -> Sex {
        Sex::named_by(s@)
    }
}

/// Something that happened to an animal.
#[derive(Debug, Clone, PartialEq, Eq)]
pub struct Event {
    pub name: String,
    pub value: String,
    pub date: Date,
    pub notes: String,
}

impl Default for Event {
    /// An event with empty texts, dated at the epoch.
    fn default() -> (r: Self)
        ensures
            r.name@.len() == 0,
            r.value@.len() == 0,
            r.notes@.len() == 0,
            r@ == (EventView {
                name: Seq::empty(),
                value: Seq::empty(),
                date: Date { secs: 0, nanos: 0, offset: 0 },
                notes: Seq::empty(),
            }),
    {
        Event {
            name: String::new(),
            value: String::new(),
            date: Date::default(),
            notes: String::new(),
        }
    }
}

/// What an event holds, as plain values.
pub struct EventView {
    pub name: Seq<char>,
    pub value: Seq<char>,
    pub date: Date,
    pub notes: Seq<char>,
}

impl View for Event {
    type V = EventView;

    open spec fn view(&self) -> EventView {
        EventView { name: self.name@, value: self.value@, date: self.date, notes: self.notes@ }
    }
}

/// What a list of events holds, as plain values.
pub open spec fn event_views(events: Seq<Event>) -> Seq<EventView> {
    events.map_values(|e: Event| e@)
}

/// One animal of a flock.
#[derive(Debug, Clone, PartialEq, Eq)]
pub struct Animal {
    /// The names the animal goes by; the first is the most recent.
    pub id: Vec<Id>,
    pub born: Option<Date>,
    pub sire: Option<Id>,
    pub dam: Option<Id>,
    pub description: String,
    pub events: Vec<Event>,
    pub sex: Sex,
}

/// What an animal holds, as plain values.
pub struct AnimalView {
    pub id: Seq<Seq<char>>,
    pub born: Option<Date>,
    pub sire: Option<Seq<char>>,
    pub dam: Option<Seq<char>>,
    pub description: Seq<char>,
    pub events: Seq<EventView>,
    pub sex: Sex,
}

impl View for Animal {
    type V = AnimalView;

    open spec fn view(&self) -> AnimalView {
        AnimalView {
            id: texts(self.id@),
            born: self.born,
            sire: opt_text(self.sire),
            dam: opt_text(self.dam),
            description: self.description@,
            events: event_views(self.events@),
            sex: self.sex,
        }
    }
}

impl AnimalView {
    /// A female animal of which nothing else is known.
    pub open spec fn unknown() -> AnimalView {
        AnimalView {
            id: Seq::empty(),
            born: None,
            sire: None,
            dam: None,
            description: Seq::empty(),
            events: Seq::empty(),
            sex: Sex::Female,
        }
    }
}

impl Animal {
    /// Whether `id` is one of the names the animal goes by.
    pub open spec fn known_as(&self, id: Seq<char>) -> bool {
        exists|j: int| 0 <= j < self.id.len() && #[trigger] self.id[j]@ == id
    }

    /// Whether `id` is one of the names the animal goes by.
    pub fn is_known_as(&self, id: &Id) -> (b: bool)
        ensures
            b == self.known_as(id@),
    {
        let mut j: usize = 0;
        while j < self.id.len()
            invariant
                j <= self.id.len(),
                forall|k: int| 0 <= k < j ==> #[trigger] self.id[k]@ != id@,
            decreases self.id.len() - j,
        {
            if self.id[j] == *id {
                return true;
            }
            j += 1;
        }
        false
    }
}

impl Default for Animal {
    /// A female animal of which nothing else is known.
    fn default() -> (r: Self)
        ensures
            r.id@.len() == 0,
            r.born is None,
            r.sire is None,
            r.dam is None,
            r.description@.len() == 0,
            r.events@.len() == 0,
            r.sex == Sex::Female,
            r@ == AnimalView::unknown(),
    {
        let r = Animal {
            id: Vec::new(),
            born: None,
            sire: None,
            dam: None,
            description: String::new(),
            events: Vec::new(),
            sex: Sex::Female,
        };
        assert(r@.id =~= Seq::empty());
        assert(r@.events =~= Seq::empty());
        r
    }
}

/// What a flock holds, as plain values.
pub struct FlokView {
    pub name: Seq<char>,
    pub animals: Seq<AnimalView>,
}

impl View for Flok {
    type V = FlokView;

    open spec fn view(&self) -> FlokView {
        FlokView { name: self.name@, animals: self.animals@.map_values(|a: Animal| a@) }
    }
}

/// A flock: the root record that the editor works on.
#[derive(Debug, Clone, PartialEq, Eq)]
pub struct Flok {
    pub name: String,
    pub animals: Vec<Animal>,
}

impl Animal {
    /// The projection from an animal to its events.
    pub fn events_mut(&mut self) -> (events: &mut Vec<Event>)
        ensures
            *events == old(self).events,
            final(self).events == *final(events),
            final(self).id == old(self).id,
            final(self).born == old(self).born,
            final(self).sire == old(self).sire,
            final(self).dam == old(self).dam,
            final(self).description == old(self).description,
            final(self).sex == old(self).sex,
    {
        &mut self.events
    }

    /// The animal that the editor adds to a flock on request: a female known
    /// as "new", of which nothing else is on record.
    pub fn new_entry() -> (animal: Animal)
        ensures
            animal.id@.len() == 1,
            animal.events@.len() == 0,
            animal@ == (AnimalView { id: seq!["new"@], ..AnimalView::unknown() }),
    {
        let mut animal = Animal::default();
        animal.id.push(owned("new"));
        assert(animal@.id =~= seq!["new"@]);
        animal
    }
}

impl Default for Flok {
    /// A flock without a name and without animals.
    fn default() -> (r: Self)
        ensures
            r.name@.len() == 0,
            r.animals@.len() == 0,
            r@ == (FlokView { name: Seq::empty(), animals: Seq::empty() }),
    {
        let r = Flok { name: String::new(), animals: Vec::new() };
        assert(r@.animals =~= Seq::empty());
        r
    }
}

impl Flok {
    /// The projection from a flock to its animals.
    pub fn animals_mut(&mut self) -> (animals: &mut Vec<Animal>)
        ensures
            *animals == old(self).animals,
            final(self).animals == *final(animals),
            final(self).name == old(self).name,
    {
        &mut self.animals
    }

    /// The projection from a flock to its name.
    pub fn name_mut(&mut self) -> (name: &mut String)
        ensures
            *name == old(self).name,
            final(self).name == *final(name),
            final(self).animals == old(self).animals,
    {
        &mut self.name
    }

    /// The animal at `index` is the first of the flock that goes by `id`.
    pub open spec fn first_known_as(&self, index: int, id: Seq<char>) -> bool {
        &&& 0 <= index < self.animals.len()
        &&& self.animals[index].known_as(id)
        &&& forall|k: int| 0 <= k < index ==> !(#[trigger] self.animals[k]).known_as(id)
    }

    /// No animal of the flock goes by `id`.
    pub open spec fn unknown(&self, id: Seq<char>) -> bool {
        forall|k: int| 0 <= k < self.animals.len() ==> !(#[trigger] self.animals[k]).known_as(id)
    }

    /// The first animal of the flock that goes by `id`, if any does.
    pub fn find(&self, id: Id) -> (r: Option<&Animal>)
        ensures
            match r {
                Some(animal) => exists|index: int|
                    self.first_known_as(index, id@) && *animal == #[trigger] self.animals[index],
                None => self.unknown(id@),
            },
    {
        let mut i: usize = 0;
        while i < self.animals.len()
            invariant
                i <= self.animals.len(),
                forall|k: int| 0 <= k < i ==> !(#[trigger] self.animals[k]).known_as(id@),
            decreases self.animals.len() - i,
        {
            if self.animals[i].is_known_as(&id) {
                return Some(&self.animals[i]);
            }
            i += 1;
        }
        None
    }

    /// The dam recorded for the first animal that goes by `id`; `None` when
    /// no animal goes by it or when that animal has no dam on record.
    pub fn dam(&self, id: Id) -> (r: Option<Id>)
        ensures
            self.unknown(id@) ==> r is None,
            forall|index: int|
                self.first_known_as(index, id@) ==> opt_text(r) == opt_text(
                    #[trigger] self.animals[index].dam,
                ),
    {
        match self.find(id) {
            Some(animal) => match &animal.dam {
                Some(dam) => Some(dam.clone()),
                None => None,
            },
            None => None,
        }
    }
}

} // verus!
