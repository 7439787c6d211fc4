use vstd::prelude::*;
use vstd::string::*;
use crate::appellation::{farewell_text, join_names, views_of, Appellation};
use crate::complicated_condition;

verus! {

/// The line printed once both scopes have been left behind.
pub open spec fn closing_line() -> Seq<char> {
    "Sproing! What was that?\n"@
}

/// What a holder prints when its scope ends: the farewell of the record it
/// still owns, if any.
pub open spec fn released(holder: Option<Appellation>) -> Seq<Seq<char>> {
    match holder {
        Some(rec) => seq![rec.farewell_view()],
        None => Seq::empty(),
    }
}

/// The lines printed by the two nested scopes, for a record whose farewell is
/// `farewell`. A record left in the inner scope is finalized when that scope
/// ends, before the closing line; a record moved to the outer holder is
/// finalized when the outer scope ends, after it.
pub open spec fn program_lines(farewell: Seq<char>, relocate: bool) -> Seq<Seq<char>> {
    if relocate {
        seq![closing_line(), farewell]
    } else {
        seq![farewell, closing_line()]
    }
}

/// Ends the scope that owns `holder`: a record still held there is
/// finalized, and its farewell is appended to `out`.
pub fn end_scope(holder: Option<Appellation>, out: &mut Vec<String>)
    ensures
        views_of(final(out)@) == views_of(old(out)@) + released(holder),
{
    match holder {
        Some(rec) => {
            let line = rec.farewell();
            out.push(line);
            assert(views_of(final(out)@) =~= views_of(old(out)@) + released(holder));
        },
        None => {
            assert(views_of(final(out)@) =~= views_of(old(out)@) + released(holder));
        },
    }
}

/// Runs the two nested scopes with `record` created in the inner one. When
/// `relocate` holds, the record is moved to the outer holder before the inner
/// scope ends. Returns the printed lines in order.
pub fn run_scopes(record: Appellation, relocate: bool) -> (lines: Vec<String>)
    ensures
        views_of(lines@) == program_lines(record.farewell_view(), relocate),
{
    let ghost farewell = record.farewell_view();
    let mut lines: Vec<String> = Vec::new();
    let mut outer: Option<Appellation> = None;
    let mut inner: Option<Appellation> = Some(record);
    if relocate {
        outer = inner.take();
    }
    assert(released(inner) =~= if relocate { Seq::empty() } else { seq![farewell] });
    assert(released(outer) =~= if relocate { seq![farewell] } else { Seq::empty() });
    assert(views_of(lines@) =~= Seq::empty());
    end_scope(inner, &mut lines);
    let closing = String::from_str("Sproing! What was that?\n");
    assert(closing@ == closing_line());
    let ghost before = lines@;
    lines.push(closing);
    assert(views_of(lines@) =~= views_of(before) + seq![closing_line()]);
    end_scope(outer, &mut lines);
    assert(views_of(lines@) =~= program_lines(farewell, relocate));
    lines
}

/// The whole program: the hairy bittercress is created in the inner scope
/// and moved out only if `complicated_condition` holds, which it never does.
/// Returns the printed lines in order.
pub fn run_program() -> (lines: Vec<String>)
    ensures
        views_of(lines@) == seq![
            "Dropping Cardamiie hirsuta (AKA shotweed, bittercress)\n"@,
            "Sproing! What was that?\n"@,
        ],
        views_of(lines@).flatten()
            == "Dropping Cardamiie hirsuta (AKA shotweed, bittercress)\nSproing! What was that?\n"@,
{
    let record = Appellation::hairy_bittercress();
    let relocate = complicated_condition();
    let lines = run_scopes(record, relocate);
    proof {
        let farewell = "Dropping Cardamiie hirsuta (AKA shotweed, bittercress)\n"@;
        lemma_bittercress_farewell();
        reveal_strlit("Dropping Cardamiie hirsuta (AKA shotweed, bittercress)\n");
        reveal_strlit("Sproing! What was that?\n");
        reveal_strlit("Dropping Cardamiie hirsuta (AKA shotweed, bittercress)\nSproing! What was that?\n");
        let views = views_of(lines@);
        reveal_with_fuel(Seq::flatten, 3);
        assert(views.flatten() =~= farewell + closing_line());
    }
    lines
}

/// The farewell of the hairy bittercress, spelled out.
proof fn lemma_bittercress_farewell()
    ensures
        farewell_text("Cardamiie hirsuta"@, seq!["shotweed"@, "bittercress"@])
            == "Dropping Cardamiie hirsuta (AKA shotweed, bittercress)\n"@,
{
    let nicknames = seq!["shotweed"@, "bittercress"@];
    reveal_strlit("Dropping ");
    reveal_strlit("Cardamiie hirsuta");
    reveal_strlit(" (AKA ");
    reveal_strlit("shotweed");
    reveal_strlit(", ");
    reveal_strlit("bittercress");
    reveal_strlit(")");
    reveal_strlit("\n");
    reveal_strlit("Dropping Cardamiie hirsuta (AKA shotweed, bittercress)\n");
    assert(nicknames.drop_last() =~= seq!["shotweed"@]);
    assert(join_names(nicknames.drop_last(), ", "@) == "shotweed"@);
    assert(nicknames.last() == "bittercress"@);
    assert(join_names(nicknames, ", "@) =~= "shotweed"@ + ", "@ + "bittercress"@);
    assert(farewell_text("Cardamiie hirsuta"@, nicknames)
        =~= "Dropping Cardamiie hirsuta (AKA shotweed, bittercress)\n"@);
}

/// Everything the lines print, one after the other.
pub fn transcript(lines: &Vec<String>) -> (r: String)
    ensures
        r@ == views_of(lines@).flatten(),
{
    let ghost views = views_of(lines@);
    let mut out = String::new();
    let mut i: usize = 0;
    while i < lines.len()
        invariant
            i <= lines.len(),
            views == views_of(lines@),
            out@ == views.take(i as int).flatten(),
        decreases lines.len() - i,
    {
        proof {
            assert(views.take(i + 1) =~= views.take(i as int).push(views[i as int]));
            views.take(i as int).lemma_flatten_push(views[i as int]);
        }
        out.append(lines[i].as_str());
        i += 1;
    }
    assert(views.take(i as int) =~= views);
    out
}

/// A farewell never reads as the closing line: the one starts with "D", the
/// other with "S".
proof fn lemma_farewell_is_not_closing(name: Seq<char>, nicknames: Seq<Seq<char>>)
    ensures
        farewell_text(name, nicknames) != closing_line(),
{
    reveal_strlit("Dropping ");
    reveal_strlit("Sproing! What was that?\n");
    assert(farewell_text(name, nicknames)[0] == 'D');
    assert(closing_line()[0] == 'S');
}

/// A record's farewell is printed where the scope that holds it ends: before
/// the closing line when it stays in the inner scope, after it when it was
/// moved to the outer holder.
pub proof fn lemma_farewell_follows_scope_exit(
    name: Seq<char>,
    nicknames: Seq<Seq<char>>,
    relocate: bool,
)
    ensures
        ({
            let farewell = farewell_text(name, nicknames);
            let lines = program_lines(farewell, relocate);
            forall|i: int, j: int|
                0 <= i < lines.len() && 0 <= j < lines.len() && lines[i] == farewell
                    && lines[j] == closing_line() ==> (if relocate {
                    j < i
                } else {
                    i < j
                })
        }),
{
    lemma_farewell_is_not_closing(name, nicknames);
}

/// Whichever way the record goes, its finalizer runs exactly once: its
/// farewell stands in exactly one of the printed lines.
pub proof fn lemma_finalized_exactly_once(
    name: Seq<char>,
    nicknames: Seq<Seq<char>>,
    relocate: bool,
)
    ensures
        ({
            let farewell = farewell_text(name, nicknames);
            let lines = program_lines(farewell, relocate);
            &&& exists|i: int| 0 <= i < lines.len() && lines[i] == farewell
            &&& forall|i: int, j: int|
                0 <= i < lines.len() && 0 <= j < lines.len() && lines[i] == farewell
                    && lines[j] == farewell ==> i == j
        }),
{
    lemma_farewell_is_not_closing(name, nicknames);
    let farewell = farewell_text(name, nicknames);
    let lines = program_lines(farewell, relocate);
    if relocate {
        assert(lines[1] == farewell);
    } else {
        assert(lines[0] == farewell);
    }
}

} // verus!
