//! Resolution of calendar selectors (titles, exact ids, and an optional source
//! or source id that qualifies every title) against the calendars EventKit
//! lists.

use crate::eventkit::{CalendarInfo, same_calendar};
use crate::text::{debug_quoted, debug_text, str_eq, text_of};
use vstd::prelude::*;
use vstd::string::*;

verus! {

/// A set of calendars named by title and by exact id. `source` and
/// `source_id` qualify every title; ids are never qualified.
pub struct CalendarSelector<'a> {
    pub titles: &'a [String],
    pub ids: &'a [String],
    pub source: Option<&'a str>,
    pub source_id: Option<&'a str>,
}

impl<'a> Default for CalendarSelector<'a> {
    fn default() -> (r: Self)
        ensures
            r.titles@.len() == 0,
            r.ids@.len() == 0,
            r.source is None,
            r.source_id is None,
    {
        let none: &'a [String] = &[];
        CalendarSelector { titles: none, ids: none, source: None, source_id: None }
    }
}

impl<'a> CalendarSelector<'a> {
    /// No title and no id was given.
    pub fn is_empty(&self) -> (r: bool)
        ensures
            r == (self.titles@.len() == 0 && self.ids@.len() == 0),
    {
        self.titles.len() == 0 && self.ids.len() == 0
    }
}

/// An optional string equals a given text.
pub open spec fn opt_is(o: Option<String>, t: Seq<char>) -> bool {
    match o {
        Some(v) => v@ == t,
        None => false,
    }
}

/// The calendar carries the given identifier.
pub open spec fn has_identifier(c: CalendarInfo, id: Seq<char>) -> bool {
    c.identifier@ == id
}

/// Some calendar in `cals` carries the identifier.
pub open spec fn id_present(cals: Seq<CalendarInfo>, id: Seq<char>) -> bool {
    exists|k: int| 0 <= k < cals.len() && has_identifier(#[trigger] cals[k], id)
}

/// The position of the first calendar that carries the identifier.
pub open spec fn first_with_id(cals: Seq<CalendarInfo>, id: Seq<char>) -> int
    recommends
        id_present(cals, id),
{
    choose|k: int|
        0 <= k < cals.len() && has_identifier(#[trigger] cals[k], id) && forall|j: int|
            0 <= j < k ==> !has_identifier(#[trigger] cals[j], id)
}

/// The calendar answers a title under the selector's qualifiers.
pub open spec fn title_matches(
    c: CalendarInfo,
    title: Seq<char>,
    source: Option<Seq<char>>,
    source_id: Option<Seq<char>>,
) -> bool {
    &&& c.title@ == title
    &&& match source {
        Some(s) => opt_is(c.source, s),
        None => true,
    }
    &&& match source_id {
        Some(s) => opt_is(c.source_id, s),
        None => true,
    }
}

/// The calendars, in listing order, that answer a title.
pub open spec fn title_candidates(
    cals: Seq<CalendarInfo>,
    title: Seq<char>,
    source: Option<Seq<char>>,
    source_id: Option<Seq<char>>,
) -> Seq<CalendarInfo>
    decreases cals.len(),
{
    if cals.len() == 0 {
        Seq::empty()
    } else {
        let rest = title_candidates(cals.drop_last(), title, source, source_id);
        if title_matches(cals.last(), title, source, source_id) {
            rest.push(cals.last())
        } else {
            rest
        }
    }
}

/// The view of an optional string slice.
pub open spec fn opt_view(o: Option<&str>) -> Option<Seq<char>> {
    match o {
        Some(s) => Some(s@),
        None => None,
    }
}

/// The candidates for one title of a selector.
pub open spec fn candidates_for(
    cals: Seq<CalendarInfo>,
    sel: CalendarSelector,
    title: Seq<char>,
) -> Seq<CalendarInfo> {
    title_candidates(cals, title, opt_view(sel.source), opt_view(sel.source_id))
}

/// Every requested id names a listed calendar.
pub open spec fn all_ids_present(cals: Seq<CalendarInfo>, ids: Seq<String>) -> bool {
    forall|i: int| 0 <= i < ids.len() ==> id_present(cals, #[trigger] ids[i]@)
}

/// `i` is the first requested id that names no listed calendar.
pub open spec fn is_first_missing_id(cals: Seq<CalendarInfo>, ids: Seq<String>, i: int) -> bool {
    &&& 0 <= i < ids.len()
    &&& !id_present(cals, ids[i]@)
    &&& forall|j: int| 0 <= j < i ==> id_present(cals, #[trigger] ids[j]@)
}

/// Every requested title has exactly one candidate.
pub open spec fn all_titles_unique(cals: Seq<CalendarInfo>, sel: CalendarSelector) -> bool {
    forall|i: int|
        0 <= i < sel.titles@.len() ==> #[trigger] candidates_for(cals, sel, sel.titles@[i]@).len()
            == 1
}

/// `i` is the first requested title without exactly one candidate.
pub open spec fn is_first_bad_title(cals: Seq<CalendarInfo>, sel: CalendarSelector, i: int) -> bool {
    &&& 0 <= i < sel.titles@.len()
    &&& candidates_for(cals, sel, sel.titles@[i]@).len() != 1
    &&& forall|j: int|
        0 <= j < i ==> #[trigger] candidates_for(cals, sel, sel.titles@[j]@).len() == 1
}

/// Whether a calendar with the identifier already stands in `s`.
pub open spec fn seq_has_id(s: Seq<CalendarInfo>, id: Seq<char>) -> bool {
    exists|k: int| 0 <= k < s.len() && has_identifier(#[trigger] s[k], id)
}

/// `s` with every calendar whose identifier already occurred dropped: the
/// first calendar for each identifier stays, in order.
pub open spec fn unique_by_id(s: Seq<CalendarInfo>) -> Seq<CalendarInfo>
    decreases s.len(),
{
    if s.len() == 0 {
        Seq::empty()
    } else {
        let kept = unique_by_id(s.drop_last());
        if seq_has_id(kept, s.last().identifier@) {
            kept
        } else {
            kept.push(s.last())
        }
    }
}

/// The calendars a selector picks before duplicates are dropped: one per id
/// (the first listed calendar with that id), then the sole candidate of each
/// title.
pub open spec fn picked(cals: Seq<CalendarInfo>, sel: CalendarSelector) -> Seq<CalendarInfo> {
    Seq::new(sel.ids@.len(), |i: int| cals[first_with_id(cals, sel.ids@[i]@)]) + Seq::new(
        sel.titles@.len(),
        |i: int| candidates_for(cals, sel, sel.titles@[i]@)[0],
    )
}

/// The message for an id that names no calendar.
pub open spec fn id_not_found_text(id: Seq<char>) -> Seq<char> {
    "calendar id not found: "@ + id
}

/// The message for a title without candidates.
pub open spec fn missing_calendar_text(title: Seq<char>, sel: CalendarSelector) -> Seq<char> {
    "calendar not found: "@ + debug_text(title) + match sel.source {
        Some(s) => " in source "@ + debug_text(s@),
        None => Seq::empty(),
    } + match sel.source_id {
        Some(s) => " with source id "@ + debug_text(s@),
        None => Seq::empty(),
    }
}

/// `true` or `false`, as `Display` writes a boolean.
pub open spec fn bool_text(b: bool) -> Seq<char> {
    if b {
        "true"@
    } else {
        "false"@
    }
}

/// An optional string, or `unknown` when absent.
pub open spec fn or_unknown(o: Option<String>) -> Seq<char> {
    match o {
        Some(v) => v@,
        None => "unknown"@,
    }
}

/// One candidate line of the ambiguity message.
pub open spec fn candidate_line(c: CalendarInfo) -> Seq<char> {
    "\n- title="@ + debug_text(c.title@) + " source="@ + debug_text(or_unknown(c.source))
        + " source_id="@ + debug_text(or_unknown(c.source_id)) + " calendar_id="@ + debug_text(
        c.identifier@,
    ) + " writable="@ + bool_text(c.allows_modifications)
}

/// The candidate lines, in order.
pub open spec fn candidate_lines(cands: Seq<CalendarInfo>) -> Seq<char>
    decreases cands.len(),
{
    if cands.len() == 0 {
        Seq::empty()
    } else {
        candidate_lines(cands.drop_last()) + candidate_line(cands.last())
    }
}

/// The message for a title with several candidates.
pub open spec fn ambiguous_calendar_text(title: Seq<char>, cands: Seq<CalendarInfo>) -> Seq<char> {
    "calendar title "@ + debug_text(title)
        + " is ambiguous; use --calendar-id, --calendar-source, or --source-id. Matches:"@
        + candidate_lines(cands)
}

/// The message for the first title without exactly one candidate.
pub open spec fn bad_title_text(cals: Seq<CalendarInfo>, sel: CalendarSelector, title: Seq<char>) -> Seq<
    char,
> {
    let cands = candidates_for(cals, sel, title);
    if cands.len() == 0 {
        missing_calendar_text(title, sel)
    } else {
        ambiguous_calendar_text(title, cands)
    }
}

/// Two calendar lists hold the same records in the same order.
pub open spec fn same_calendars(a: Seq<CalendarInfo>, b: Seq<CalendarInfo>) -> bool {
    &&& a.len() == b.len()
    &&& forall|i: int| 0 <= i < a.len() ==> same_calendar(#[trigger] a[i], b[i])
}

/// The position of the first calendar with the identifier, if any.
fn find_by_id(calendars: &[CalendarInfo], id: &String) -> (r: Option<usize>)
    ensures
        match r {
            Some(k) => k < calendars@.len() && id_present(calendars@, id@) && k == first_with_id(
                calendars@,
                id@,
            ),
            None => !id_present(calendars@, id@),
        },
{
    let mut k: usize = 0;
    while k < calendars.len()
        invariant
            k <= calendars@.len(),
            forall|j: int| 0 <= j < k ==> !has_identifier(#[trigger] calendars@[j], id@),
        decreases calendars.len() - k,
    {
        if calendars[k].identifier == *id {
            let ghost kk = k as int;
            assert(has_identifier(calendars@[kk], id@));
            let ghost c = first_with_id(calendars@, id@);
            assert(0 <= c < calendars@.len() && has_identifier(calendars@[c], id@));
            assert(c == kk) by {
                if c < kk {
                    assert(!has_identifier(calendars@[c], id@));
                }
                if kk < c {
                }
            }
            return Some(k);
        }
        k = k + 1;
    }
    None
}

/// Whether an optional string equals an optional qualifier (an absent
/// qualifier accepts anything).
fn qualifier_accepts(value: &Option<String>, qualifier: Option<&str>) -> (r: bool)
    ensures
        r == match opt_view(qualifier) {
            Some(s) => opt_is(*value, s),
            None => true,
        },
{
    match qualifier {
        None => true,
        Some(q) => match value {
            Some(v) => str_eq(v.as_str(), q),
            None => false,
        },
    }
}

/// The calendars that answer one title, in listing order.
fn candidates(calendars: &[CalendarInfo], title: &String, selector: &CalendarSelector) -> (r: Vec<
    CalendarInfo,
>)
    ensures
        same_calendars(r@, candidates_for(calendars@, *selector, title@)),
{
    let mut out: Vec<CalendarInfo> = Vec::new();
    let mut k: usize = 0;
    while k < calendars.len()
        invariant
            k <= calendars@.len(),
            same_calendars(
                out@,
                title_candidates(
                    calendars@.take(k as int),
                    title@,
                    opt_view(selector.source),
                    opt_view(selector.source_id),
                ),
            ),
        decreases calendars.len() - k,
    {
        let c = &calendars[k];
        let ghost prefix = calendars@.take(k as int);
        assert(calendars@.take(k + 1).drop_last() =~= prefix);
        assert(calendars@.take(k + 1).last() == calendars@[k as int]);
        if c.title == *title && qualifier_accepts(&c.source, selector.source) && qualifier_accepts(
            &c.source_id,
            selector.source_id,
        ) {
            out.push(c.duplicate());
        }
        k = k + 1;
    }
    assert(calendars@.take(calendars.len() as int) =~= calendars@);
    out
}

/// Whether a calendar with the identifier is already in the list.
fn contains_id(resolved: &Vec<CalendarInfo>, id: &String) -> (r: bool)
    ensures
        r == seq_has_id(resolved@, id@),
{
    let mut k: usize = 0;
    while k < resolved.len()
        invariant
            k <= resolved@.len(),
            forall|j: int| 0 <= j < k ==> !has_identifier(#[trigger] resolved@[j], id@),
        decreases resolved.len() - k,
    {
        if resolved[k].identifier == *id {
            assert(has_identifier(resolved@[k as int], id@));
            return true;
        }
        k = k + 1;
    }
    false
}

proof fn lemma_same_has_id(a: Seq<CalendarInfo>, b: Seq<CalendarInfo>, id: Seq<char>)
    requires
        same_calendars(a, b),
    ensures
        seq_has_id(a, id) == seq_has_id(b, id),
{
    if seq_has_id(a, id) {
        let k = choose|k: int| 0 <= k < a.len() && has_identifier(#[trigger] a[k], id);
        assert(same_calendar(a[k], b[k]));
        assert(has_identifier(b[k], id));
    }
    if seq_has_id(b, id) {
        let k = choose|k: int| 0 <= k < b.len() && has_identifier(#[trigger] b[k], id);
        assert(same_calendar(a[k], b[k]));
        assert(has_identifier(a[k], id));
    }
}

/// Adds a calendar unless one with its identifier is already resolved.
fn push_unique(resolved: &mut Vec<CalendarInfo>, calendar: &CalendarInfo, Ghost(
    before,
): Ghost<Seq<CalendarInfo>>)
    requires
        same_calendars(old(resolved)@, unique_by_id(before)),
    ensures
        same_calendars(final(resolved)@, unique_by_id(before.push(*calendar))),
{
    proof {
        assert(before.push(*calendar).drop_last() =~= before);
        lemma_same_has_id(old(resolved)@, unique_by_id(before), calendar.identifier@);
    }
    if !contains_id(resolved, &calendar.identifier) {
        resolved.push(calendar.duplicate());
    }
}

/// Resolves a selector: every exact id must name a listed calendar, every
/// title must have exactly one candidate under the source qualifiers; the
/// resolved calendars come in request order (ids first), each identifier once.
#[verifier::spinoff_prover]
#[verifier::rlimit(60)]
/// What resolving a selector gives: with every id listed and every title
/// matching one calendar, the picked calendars without repeated
/// identifiers; otherwise the error for the first unlisted id, or, with all
/// ids listed, for the first title without exactly one candidate.
pub open spec fn resolution_outcome(
    calendars: Seq<CalendarInfo>,
    selector: CalendarSelector,
    r: Result<Vec<CalendarInfo>, String>,
) -> bool {
    &&& all_ids_present(calendars, selector.ids@) && all_titles_unique(calendars, selector) ==> r is Ok
        && same_calendars(r->Ok_0@, unique_by_id(picked(calendars, selector)))
    &&& forall|i: int|
        is_first_missing_id(calendars, selector.ids@, i) ==> r is Err && r->Err_0@ == id_not_found_text(
            #[trigger] selector.ids@[i]@,
        )
    &&& forall|i: int|
        all_ids_present(calendars, selector.ids@) && is_first_bad_title(calendars, selector, i) ==> r is Err
            && r->Err_0@ == bad_title_text(calendars, selector, #[trigger] selector.titles@[i]@)
}

#[verifier::rlimit(40)]
pub fn resolve_calendars(calendars: &[CalendarInfo], selector: &CalendarSelector) -> (r: Result<
    Vec<CalendarInfo>,
    String,
>)
    ensures
        resolution_outcome(calendars@, *selector, r),
{
    let ghost cals = calendars@;
    let ghost all = picked(cals, *selector);
    let mut resolved: Vec<CalendarInfo> = Vec::new();
    let n_ids = selector.ids.len();
    let mut i: usize = 0;
    while i < n_ids
        invariant
            n_ids == selector.ids@.len(),
            i <= n_ids,
            cals == calendars@,
            all == picked(cals, *selector),
            forall|j: int| 0 <= j < i ==> id_present(cals, #[trigger] selector.ids@[j]@),
            same_calendars(resolved@, unique_by_id(all.take(i as int))),
        decreases n_ids - i,
    {
        let id = &selector.ids[i];
        match find_by_id(calendars, id) {
            None => {
                let mut message = text_of("calendar id not found: ");
                message.append(id.as_str());
                proof {
                    assert(is_first_missing_id(cals, selector.ids@, i as int));
                    assert forall|x: int| is_first_missing_id(cals, selector.ids@, x) implies x == i by {
                        if x < i {
                            assert(id_present(cals, selector.ids@[x]@));
                        }
                        if i < x {
                            assert(id_present(cals, selector.ids@[i as int]@));
                        }
                    }
                }
                return Err(message);
            },
            Some(k) => {
                proof {
                    assert(all.take(i + 1) =~= all.take(i as int).push(calendars@[k as int]));
                }
                push_unique(&mut resolved, &calendars[k], Ghost(all.take(i as int)));
            },
        }
        i = i + 1;
    }
    let n_titles = selector.titles.len();
    let mut t: usize = 0;
    while t < n_titles
        invariant
            n_titles == selector.titles@.len(),
            n_ids == selector.ids@.len(),
            t <= n_titles,
            cals == calendars@,
            all == picked(cals, *selector),
            all_ids_present(cals, selector.ids@),
            forall|j: int|
                0 <= j < t ==> #[trigger] candidates_for(cals, *selector, selector.titles@[j]@).len()
                    == 1,
            same_calendars(resolved@, unique_by_id(all.take(n_ids + t))),
        decreases n_titles - t,
    {
        let title = &selector.titles[t];
        let cands = candidates(calendars, title, selector);
        if cands.len() != 1 {
            proof {
                assert(is_first_bad_title(cals, *selector, t as int));
                assert forall|x: int|
                    all_ids_present(cals, selector.ids@) && is_first_bad_title(
                        cals,
                        *selector,
                        x,
                    ) implies x == t by {
                    if x < t {
                        assert(candidates_for(cals, *selector, selector.titles@[x]@).len() == 1);
                    }
                    if t < x {
                        assert(candidates_for(cals, *selector, selector.titles@[t as int]@).len()
                            == 1);
                    }
                }
            }
            if cands.len() == 0 {
                return Err(missing_calendar_message(title, selector));
            } else {
                return Err(ambiguous_calendar_message(title, &cands, Ghost(candidates_for(cals, *selector, title@))));
            }
        }
        proof {
            let ghost spec_c = candidates_for(cals, *selector, title@);
            assert(all[n_ids + t] == spec_c[0]);
            assert(all.take(n_ids + t + 1) =~= all.take(n_ids + t).push(spec_c[0]));
            assert(same_calendar(cands@[0], spec_c[0]));
            lemma_unique_by_id_same(all.take(n_ids + t), cands@[0], spec_c[0]);
        }
        push_unique(&mut resolved, &cands[0], Ghost(all.take(n_ids + t)));
        proof {
            let ghost spec_c = candidates_for(cals, *selector, title@);
            lemma_unique_by_id_same(all.take(n_ids + t), cands@[0], spec_c[0]);
        }
        t = t + 1;
    }
    proof {
        assert(all.take(n_ids + n_titles) =~= all);
    }
    Ok(resolved)
}

proof fn lemma_unique_by_id_same(s: Seq<CalendarInfo>, a: CalendarInfo, b: CalendarInfo)
    requires
        same_calendar(a, b),
    ensures
        same_calendars(unique_by_id(s.push(a)), unique_by_id(s.push(b))),
{
    assert(s.push(a).drop_last() =~= s);
    assert(s.push(b).drop_last() =~= s);
    let kept = unique_by_id(s);
    assert(forall|i: int| 0 <= i < kept.len() ==> same_calendar(#[trigger] kept[i], kept[i]));
}

/// The message for a title without candidates.
fn missing_calendar_message(title: &String, selector: &CalendarSelector) -> (r: String)
    ensures
        r@ == missing_calendar_text(title@, *selector),
{
    let mut message = text_of("calendar not found: ");
    let quoted = debug_quoted(title.as_str());
    message.append(quoted.as_str());
    if let Some(source) = selector.source {
        message.append(" in source ");
        let q = debug_quoted(source);
        message.append(q.as_str());
    }
    if let Some(source_id) = selector.source_id {
        message.append(" with source id ");
        let q = debug_quoted(source_id);
        message.append(q.as_str());
    }
    assert(message@ =~= missing_calendar_text(title@, *selector));
    message
}

/// `true` or `false`.
fn bool_string(b: bool) -> (r: String)
    ensures
        r@ == bool_text(b),
{
    if b {
        text_of("true")
    } else {
        text_of("false")
    }
}

/// The value of an optional string, or `unknown`.
fn or_unknown_str(o: &Option<String>) -> (r: String)
    ensures
        r@ == or_unknown(*o),
{
    match o {
        Some(v) => v.clone(),
        None => text_of("unknown"),
    }
}

/// The message for a title with several candidates.
#[verifier::spinoff_prover]
#[verifier::rlimit(40)]
fn ambiguous_calendar_message(title: &String, cands: &Vec<CalendarInfo>, Ghost(spec_cands): Ghost<
    Seq<CalendarInfo>,
>) -> (r: String)
    requires
        same_calendars(cands@, spec_cands),
    ensures
        r@ == ambiguous_calendar_text(title@, spec_cands),
{
    let mut message = text_of("calendar title ");
    let quoted = debug_quoted(title.as_str());
    message.append(quoted.as_str());
    message.append(
        " is ambiguous; use --calendar-id, --calendar-source, or --source-id. Matches:",
    );
    let ghost head = message@;
    let mut k: usize = 0;
    while k < cands.len()
        invariant
            k <= cands@.len(),
            same_calendars(cands@, spec_cands),
            message@ == head + candidate_lines(spec_cands.take(k as int)),
        decreases cands.len() - k,
    {
        let c = &cands[k];
        assert(same_calendar(cands@[k as int], spec_cands[k as int]));
        message.append("\n- title=");
        let q = debug_quoted(c.title.as_str());
        message.append(q.as_str());
        message.append(" source=");
        let s = or_unknown_str(&c.source);
        let q = debug_quoted(s.as_str());
        message.append(q.as_str());
        message.append(" source_id=");
        let s = or_unknown_str(&c.source_id);
        let q = debug_quoted(s.as_str());
        message.append(q.as_str());
        message.append(" calendar_id=");
        let q = debug_quoted(c.identifier.as_str());
        message.append(q.as_str());
        message.append(" writable=");
        let b = bool_string(c.allows_modifications);
        message.append(b.as_str());
        proof {
            assert(spec_cands.take(k + 1).drop_last() =~= spec_cands.take(k as int));
            assert(spec_cands.take(k + 1).last() == spec_cands[k as int]);
            assert(message@ =~= head + candidate_lines(spec_cands.take(k + 1)));
        }
        k = k + 1;
    }
    assert(spec_cands.take(cands.len() as int) =~= spec_cands);
    message
}

/// The message when a write needs a calendar but the selector names none.
pub open spec fn selector_required_text() -> Seq<char> {
    "a calendar selector is required"@
}

/// The message when a write selector resolves to more than one calendar.
pub open spec fn multiple_calendars_text() -> Seq<char> {
    "calendar selector resolved to multiple calendars; select exactly one calendar"@
}

/// What resolving a selector to exactly one calendar gives: the resolution
/// errors (first missing id, first title without a single candidate); else
/// the one calendar picked, or an error for none and for several.
pub open spec fn single_calendar_outcome(
    calendars: Seq<CalendarInfo>,
    selector: CalendarSelector,
    r: Result<CalendarInfo, String>,
) -> bool {
    &&& all_ids_present(calendars, selector.ids@) && all_titles_unique(calendars, selector) ==> {
        let all = unique_by_id(picked(calendars, selector));
        &&& all.len() == 1 ==> r is Ok && same_calendar(r->Ok_0, all[0])
        &&& all.len() == 0 ==> r is Err && r->Err_0@ == selector_required_text()
        &&& all.len() > 1 ==> r is Err && r->Err_0@ == multiple_calendars_text()
    }
    &&& forall|i: int|
        is_first_missing_id(calendars, selector.ids@, i) ==> r is Err && r->Err_0@ == id_not_found_text(
            #[trigger] selector.ids@[i]@,
        )
    &&& forall|i: int|
        all_ids_present(calendars, selector.ids@) && is_first_bad_title(calendars, selector, i) ==> r is Err
            && r->Err_0@ == bad_title_text(calendars, selector, #[trigger] selector.titles@[i]@)
}

/// Resolves a selector that must name exactly one calendar: the resolution
/// errors pass through; no calendar and several calendars are errors too.
pub fn require_single_calendar(calendars: &[CalendarInfo], selector: &CalendarSelector) -> (r:
    Result<CalendarInfo, String>)
    ensures
        single_calendar_outcome(calendars@, *selector, r),
{
    let resolved = match resolve_calendars(calendars, selector) {
        Ok(resolved) => resolved,
        Err(error) => return Err(error),
    };
    if resolved.len() == 1 {
        Ok(resolved[0].duplicate())
    } else if resolved.len() == 0 {
        Err(text_of("a calendar selector is required"))
    } else {
        Err(text_of("calendar selector resolved to multiple calendars; select exactly one calendar"))
    }
}

/// Some listed calendar is the first to carry an identifier that is present.
pub proof fn lemma_first_with_id(cals: Seq<CalendarInfo>, id: Seq<char>)
    requires
        id_present(cals, id),
    ensures
        0 <= first_with_id(cals, id) < cals.len(),
        has_identifier(cals[first_with_id(cals, id)], id),
        forall|j: int| 0 <= j < first_with_id(cals, id) ==> !has_identifier(#[trigger] cals[j], id),
{
    let k = choose|k: int| 0 <= k < cals.len() && has_identifier(#[trigger] cals[k], id);
    lemma_earliest_with_id(cals, id, k);
}

proof fn lemma_earliest_with_id(cals: Seq<CalendarInfo>, id: Seq<char>, k: int)
    requires
        0 <= k < cals.len(),
        has_identifier(cals[k], id),
    ensures
        exists|m: int|
            0 <= m < cals.len() && has_identifier(#[trigger] cals[m], id) && forall|j: int|
                0 <= j < m ==> !has_identifier(#[trigger] cals[j], id),
    decreases k,
{
    if exists|j: int| 0 <= j < k && has_identifier(#[trigger] cals[j], id) {
        let j = choose|j: int| 0 <= j < k && has_identifier(#[trigger] cals[j], id);
        lemma_earliest_with_id(cals, id, j);
    } else {
        assert(forall|j: int| 0 <= j < k ==> !has_identifier(#[trigger] cals[j], id));
    }
}

/// What `unique_by_id` keeps: calendars of the list, at most as many, each
/// identifier once, and every identifier of the list.
pub proof fn lemma_unique_by_id_facts(s: Seq<CalendarInfo>)
    ensures
        unique_by_id(s).len() <= s.len(),
        forall|k: int| 0 <= k < unique_by_id(s).len() ==> exists|j: int| 0 <= j < s.len() && s[j] == #[trigger] unique_by_id(s)[k],
        forall|a: int, b: int|
            0 <= a < b < unique_by_id(s).len() ==> (#[trigger] unique_by_id(s)[a]).identifier@ != (
            #[trigger] unique_by_id(s)[b]).identifier@,
        forall|j: int| 0 <= j < s.len() ==> seq_has_id(unique_by_id(s), (#[trigger] s[j]).identifier@),
    decreases s.len(),
{
    if s.len() > 0 {
        let rest = s.drop_last();
        lemma_unique_by_id_facts(rest);
        let kept = unique_by_id(rest);
        let u = unique_by_id(s);
        assert forall|k: int| 0 <= k < u.len() implies exists|j: int| 0 <= j < s.len() && s[j] == #[trigger] u[k] by {
            if k < kept.len() {
                let j = choose|j: int| 0 <= j < rest.len() && rest[j] == #[trigger] kept[k];
                assert(s[j] == rest[j]);
            } else {
                assert(u[k] == s[s.len() - 1]);
            }
        }
        assert forall|j: int| 0 <= j < s.len() implies seq_has_id(u, (#[trigger] s[j]).identifier@) by {
            if j < rest.len() {
                assert(s[j] == rest[j]);
                assert(seq_has_id(kept, rest[j].identifier@));
                let m = choose|m: int| 0 <= m < kept.len() && has_identifier(#[trigger] kept[m], rest[j].identifier@);
                assert(u[m] == kept[m]);
            } else if seq_has_id(kept, s.last().identifier@) {
                let m = choose|m: int| 0 <= m < kept.len() && has_identifier(#[trigger] kept[m], s.last().identifier@);
                assert(u[m] == kept[m]);
            } else {
                assert(has_identifier(u[u.len() - 1], s.last().identifier@));
            }
        }
        assert forall|a: int, b: int| 0 <= a < b < u.len() implies (#[trigger] u[a]).identifier@ != (
        #[trigger] u[b]).identifier@ by {
            if b < kept.len() {
                assert(u[a] == kept[a] && u[b] == kept[b]);
            } else {
                assert(u[a] == kept[a]);
                assert(!seq_has_id(kept, s.last().identifier@));
                assert(!has_identifier(kept[a], s.last().identifier@));
            }
        }
    }
}

/// Every candidate for a title is a listed calendar.
pub proof fn lemma_candidates_listed(
    cals: Seq<CalendarInfo>,
    title: Seq<char>,
    source: Option<Seq<char>>,
    source_id: Option<Seq<char>>,
)
    ensures
        forall|k: int|
            0 <= k < title_candidates(cals, title, source, source_id).len() ==> exists|j: int|
                0 <= j < cals.len() && cals[j] == #[trigger] title_candidates(cals, title, source, source_id)[k],
    decreases cals.len(),
{
    if cals.len() > 0 {
        let rest = cals.drop_last();
        lemma_candidates_listed(rest, title, source, source_id);
        let t = title_candidates(cals, title, source, source_id);
        let tr = title_candidates(rest, title, source, source_id);
        assert forall|k: int| 0 <= k < t.len() implies exists|j: int| 0 <= j < cals.len() && cals[j] == #[trigger] t[k] by {
            if k < tr.len() {
                let j = choose|j: int| 0 <= j < rest.len() && rest[j] == #[trigger] tr[k];
                assert(cals[j] == rest[j]);
                assert(t[k] == tr[k]);
            } else {
                assert(t[k] == cals[cals.len() - 1]);
            }
        }
    }
}

} // verus!
