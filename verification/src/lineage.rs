use crate::flok::Animal;
use crate::flok::Flok;
use crate::text::owned;
use crate::text::replace;
use crate::text::replaced;
use vstd::prelude::*;
use vstd::string::StringExecFns;

verus! {

/// The name that stands for an animal in the graph: its most recent id, or
/// "unknown" for an animal without one.
pub open spec fn node_name(animal: Animal) -> Seq<char> {
    if animal.id.len() > 0 {
        animal.id[0]@
    } else {
        "unknown"@
    }
}

/// The line of the graph that an animal contributes: an edge from the animal
/// to its dam, or nothing for an animal without a dam on record.
pub open spec fn edge_line(animal: Animal) -> Seq<char> {
    match animal.dam {
        Some(dam) => "    "@ + node_name(animal) + " -> "@ + dam@ + "\n"@,
        None => Seq::empty(),
    }
}

/// The edge lines of the first `count` animals, in their order.
pub open spec fn edge_lines(animals: Seq<Animal>, count: nat) -> Seq<char>
    decreases count,
{
    if count == 0 {
        Seq::empty()
    } else {
        edge_lines(animals, (count - 1) as nat) + edge_line(animals[count - 1])
    }
}

/// The lineage of a flock as a graph in the DOT language, drawn from left to
/// right, before any character is made safe.
pub open spec fn lineage_graph(flok: Flok) -> Seq<char> {
    "digraph {\n"@ + "rankdir=LR;\n"@ + edge_lines(flok.animals@, flok.animals@.len()) + "}\n"@
}

/// The graph with what the DOT language cannot take in a name replaced: each
/// question mark and then each "#N/A" gives way to "000".
pub open spec fn lineage_text(flok: Flok) -> Seq<char> {
    replaced(replaced(lineage_graph(flok), "?"@, "000"@), "#N/A"@, "000"@)
}

impl Animal {
    /// Appends to `text` the line of the graph that this animal contributes.
    pub fn push_edge_line(&self, text: &mut String)
        ensures
            final(text)@ == old(text)@ + edge_line(*self),
    {
        match &self.dam {
            Some(dam) => {
                text.append("    ");
                if self.id.len() > 0 {
                    text.append(self.id[0].as_str());
                } else {
                    text.append("unknown");
                }
                text.append(" -> ");
                text.append(dam.as_str());
                text.append("\n");
            },
            None => {},
        }
    }
}

impl Flok {
    /// The lineage of the flock as a graph in the DOT language: one edge from
    /// each animal with a dam on record to that dam.
    pub fn lineage_dot(&self) -> (r: String)
        ensures
            r@ == lineage_text(*self),
    {
        let mut text = owned("digraph {\n");
        text.append("rankdir=LR;\n");
        let ghost head = text@;
        let mut i: usize = 0;
        while i < self.animals.len()
            invariant
                i <= self.animals.len(),
                head == "digraph {\n"@ + "rankdir=LR;\n"@,
                text@ == head + edge_lines(self.animals@, i as nat),
            decreases self.animals.len() - i,
        {
            self.animals[i].push_edge_line(&mut text);
            i += 1;
        }
        text.append("}\n");
        proof {
            reveal_strlit("?");
            reveal_strlit("#N/A");
        }
        let marked = replace(text.as_str(), "?", "000");
        replace(marked.as_str(), "#N/A", "000")
    }
}

} // verus!
