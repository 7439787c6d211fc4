use vstd::prelude::*;
use vstd::string::*;

verus! {

/// The pieces of `parts` with `sep` between each two neighbours.
pub open spec fn join_names(parts: Seq<Seq<char>>, sep: Seq<char>) -> Seq<char>
    decreases parts.len(),
{
    if parts.len() == 0 {
        Seq::empty()
    } else if parts.len() == 1 {
        parts[0]
    } else {
        join_names(parts.drop_last(), sep) + sep + parts.last()
    }
}

/// What a record prints when it is finalized: its name, then its alternate
/// names in parentheses when it has any, then a newline.
pub open spec fn farewell_text(name: Seq<char>, nicknames: Seq<Seq<char>>) -> Seq<char> {
    "Dropping "@ + name + (if nicknames.len() == 0 {
        Seq::empty()
    } else {
        " (AKA "@ + join_names(nicknames, ", "@) + ")"@
    }) + "\n"@
}

/// The character sequences of the strings in `v`, in order.
pub open spec fn views_of(v: Seq<String>) -> Seq<Seq<char>> {
    v.map_values(|s: String| s@)
}

/// A name with its alternate names, in order.
pub struct Appellation {
    pub name: String,
    pub nicknames: Vec<String>,
}

impl Appellation {
    /// The alternate names as character sequences.
    pub open spec fn nicknames_view(&self) -> Seq<Seq<char>> {
        views_of(self.nicknames@)
    }

    /// The text this record prints when it is finalized.
    pub open spec fn farewell_view(&self) -> Seq<char> {
        farewell_text(self.name@, self.nicknames_view())
    }

    /// A record with the given name and alternate names.
    pub fn new(name: String, nicknames: Vec<String>) -> (r: Appellation)
        ensures
            r.name@ == name@,
            r.nicknames_view() == views_of(nicknames@),
    {
        Appellation { name, nicknames }
    }

    /// The hairy bittercress, under its name and two common names.
    pub fn hairy_bittercress() -> (r: Appellation)
        ensures
            r.name@ == "Cardamiie hirsuta"@,
            r.nicknames_view() == seq!["shotweed"@, "bittercress"@],
    {
        let mut nicknames: Vec<String> = Vec::new();
        nicknames.push(String::from_str("shotweed"));
        nicknames.push(String::from_str("bittercress"));
        assert(views_of(nicknames@) =~= seq!["shotweed"@, "bittercress"@]);
        Appellation::new(String::from_str("Cardamiie hirsuta"), nicknames)
    }

    /// The line printed when this record is finalized.
    pub fn farewell(&self) -> (r: String)
        ensures
            r@ == self.farewell_view(),
    {
        let mut out = String::from_str("Dropping ");
        out.append(self.name.as_str());
        if self.nicknames.len() > 0 {
            out.append(" (AKA ");
            let joined = join_with(&self.nicknames, ", ");
            out.append(joined.as_str());
            out.append(")");
        }
        out.append("\n");
        out
    }
}

/// The strings of `parts` joined, with `sep` between each two neighbours.
pub fn join_with(parts: &Vec<String>, sep: &str) -> (r: String)
    ensures
        r@ == join_names(views_of(parts@), sep@),
{
    let ghost views = views_of(parts@);
    let mut out = String::new();
    let mut i: usize = 0;
    while i < parts.len()
        invariant
            i <= parts.len(),
            views == views_of(parts@),
            out@ == join_names(views.take(i as int), sep@),
        decreases parts.len() - i,
    {
        assert(views.take(i + 1).drop_last() =~= views.take(i as int));
        if i > 0 {
            out.append(sep);
        }
        out.append(parts[i].as_str());
        i += 1;
    }
    assert(views.take(i as int) =~= views);
    out
}

/// A record without alternate names prints its name alone, with no
/// parenthesised suffix.
pub proof fn lemma_farewell_without_nicknames(name: Seq<char>)
    ensures
        farewell_text(name, Seq::empty()) == "Dropping "@ + name + "\n"@,
{
    assert(farewell_text(name, Seq::empty()) =~= "Dropping "@ + name + "\n"@);
}

/// A record with one alternate name prints that name in the suffix, with no
/// separator.
pub proof fn lemma_farewell_single_nickname(name: Seq<char>, nickname: Seq<char>)
    ensures
        farewell_text(name, seq![nickname]) == "Dropping "@ + name + " (AKA "@ + nickname
            + ")\n"@,
{
    reveal_strlit(")");
    reveal_strlit("\n");
    reveal_strlit(")\n");
    assert(join_names(seq![nickname], ", "@) == nickname);
    assert(farewell_text(name, seq![nickname]) =~= "Dropping "@ + name + " (AKA "@ + nickname
        + ")\n"@);
}

} // verus!
