//! Guest stories about their stays: who may write one, who may read one, and
//! what a submitted catch log must look like.

use crate::dates::{Date, ymd_before};
use crate::error::{AppError, ErrorKind};
use crate::text::{cleaned, concat3, opt_view, str_eq, trim, trim_spec};
use crate::users::User;
use vstd::prelude::*;

verus! {

/// Readable by any registered account.
pub const VISIBILITY_PUBLIC: &'static str = "public";

/// Readable only by family (`user` role) accounts, plus admins and the owner.
pub const VISIBILITY_FAMILY: &'static str = "family";

/// Most catch rows one entry may carry.
pub const MAX_CATCHES_PER_ENTRY: usize = 25;

/// Most photos one entry may carry, gallery and per-catch combined.
pub const MAX_PHOTOS_PER_ENTRY: i64 = 20;

/// Entries per page of the feed.
pub const PAGE_SIZE: i64 = 10;

/// The feed page to show: the one asked for, the first when absent or below one.
pub fn feed_page(requested: Option<i64>) -> (p: i64)
    ensures
        p == match requested {
            Some(n) => if n < 1 {
                1
            } else {
                n as int
            },
            None => 1int,
        },
        p >= 1,
{
    match requested {
        Some(n) => {
            if n < 1 {
                1
            } else {
                n
            }
        },
        None => 1,
    }
}

/// Entries skipped before `page`.
pub fn page_offset(page: i64) -> (o: i64)
    requires
        1 <= page,
        (page - 1) * PAGE_SIZE <= i64::MAX,
    ensures
        o == (page - 1) * PAGE_SIZE,
{
    (page - 1) * PAGE_SIZE
}

/// Pages needed for `total` entries, never fewer than one.
pub fn total_pages(total: i64) -> (n: i64)
    requires
        total >= 0,
    ensures
        n >= 1,
        total == 0 ==> n == 1,
        total > 0 ==> (n - 1) * PAGE_SIZE < total <= n * PAGE_SIZE,
{
    if total == 0 {
        1
    } else {
        (total - 1) / PAGE_SIZE + 1
    }
}

pub open spec fn valid_visibility(v: Seq<char>) -> bool {
    v == "public"@ || v == "family"@
}

/// Refuses anything but the two documented visibilities.
pub fn validate_visibility(visibility: &str) -> (r: Result<(), AppError>)
    ensures
        r is Ok <==> valid_visibility(visibility@),
        r is Err ==> r->Err_0@ == (
            ErrorKind::BadRequest,
            "'"@ + visibility@ + "' is not a visibility. Valid options: public, family."@,
        ),
{
    if !(str_eq(visibility, "public") || str_eq(visibility, "family")) {
        let m = concat3("'", visibility, "' is not a visibility. Valid options: public, family.");
        return Err(AppError::with_message(ErrorKind::BadRequest, m));
    }
    Ok(())
}

/// A booking may receive a story once it is approved, the stay has started
/// (check-in on or before today) and it has none yet; checkout is irrelevant.
pub open spec fn journal_eligible(status: Seq<char>, check_in: (int, int, int), today: (int, int, int), has_entry: bool) -> bool {
    status == "approved"@ && !ymd_before(today, check_in) && !has_entry
}

pub fn is_journal_eligible(status: &str, check_in: Date, today: Date, has_existing_entry: bool) -> (b: bool)
    ensures
        b == journal_eligible(status@, check_in.ymd(), today.ymd(), has_existing_entry),
{
    str_eq(status, "approved") && !today.is_before(&check_in) && !has_existing_entry
}

/// Refuses a story before arrival.
pub fn require_stay_started(check_in: Date, today: Date) -> (r: Result<(), AppError>)
    ensures
        r is Ok <==> !ymd_before(today.ymd(), check_in.ymd()),
        r is Err ==> r->Err_0@ == (
            ErrorKind::BadRequest,
            "You can share a story once your stay has started."@,
        ),
{
    if today.is_before(&check_in) {
        return Err(AppError::new(ErrorKind::BadRequest, "You can share a story once your stay has started."));
    }
    Ok(())
}

/// Only an approved booking was ever confirmed to happen.
pub fn require_approved(status: &str) -> (r: Result<(), AppError>)
    ensures
        r is Ok <==> status@ == "approved"@,
        r is Err ==> r->Err_0@ == (ErrorKind::BadRequest, "Only approved stays can be journaled about."@),
{
    if !str_eq(status, "approved") {
        return Err(AppError::new(ErrorKind::BadRequest, "Only approved stays can be journaled about."));
    }
    Ok(())
}

/// Guards against journaling the same stay twice.
pub fn require_no_existing_entry(already: bool) -> (r: Result<(), AppError>)
    ensures
        r is Ok <==> !already,
        r is Err ==> r->Err_0@ == (ErrorKind::Conflict, "You've already shared a story for this stay."@),
{
    if already {
        return Err(AppError::new(ErrorKind::Conflict, "You've already shared a story for this stay."));
    }
    Ok(())
}

/// A viewer's standing relative to one entry.
#[derive(Debug, Clone, Copy)]
pub struct ViewerContext {
    pub is_author: bool,
    /// Admin or camp owner: the moderation bypass.
    pub moderates: bool,
    /// The `user` (family) role.
    pub is_family: bool,
}

/// Admins and the camp owner see and moderate everything.
pub fn moderates(user: &User) -> (b: bool)
    ensures
        b == user.staff(),
{
    user.is_admin() || user.is_owner
}

impl ViewerContext {
    /// `viewer`'s standing relative to an entry written by `author_id`.
    pub fn of(viewer: &User, author_id: u128) -> (v: ViewerContext)
        ensures
            v.is_author == (viewer.id == author_id),
            v.moderates == viewer.staff(),
            v.is_family == (viewer.role@ == "user"@),
    {
        ViewerContext {
            is_author: viewer.id == author_id,
            moderates: moderates(viewer),
            is_family: str_eq(viewer.role.as_str(), "user"),
        }
    }
}

/// Refuses anyone who does not moderate.
pub fn require_moderator(user: &User) -> (r: Result<(), AppError>)
    ensures
        r is Ok <==> user.staff(),
        r is Err ==> r->Err_0@ == (ErrorKind::Forbidden, "Only an admin or the camp owner can do that."@),
{
    if !moderates(user) {
        return Err(AppError::new(ErrorKind::Forbidden, "Only an admin or the camp owner can do that."));
    }
    Ok(())
}

/// The whole visibility rule: authors and moderators always see an entry;
/// anyone else sees a live entry their role reaches, and an unknown
/// visibility reaches nobody.
pub open spec fn may_view_spec(v: ViewerContext, visibility: Seq<char>, archived: bool) -> bool {
    if v.is_author || v.moderates {
        true
    } else if archived {
        false
    } else if visibility == "public"@ {
        true
    } else if visibility == "family"@ {
        v.is_family
    } else {
        false
    }
}

pub fn may_view(v: ViewerContext, visibility: &str, archived: bool) -> (b: bool)
    ensures
        b == may_view_spec(v, visibility@, archived),
{
    if v.is_author || v.moderates {
        return true;
    }
    if archived {
        return false;
    }
    if str_eq(visibility, "public") {
        true
    } else if str_eq(visibility, "family") {
        v.is_family
    } else {
        false
    }
}

/// A condition of the feed's `WHERE` fragment over a `journal_entries` row
/// `je`, with the viewer's parameters `$1` (id), `$2` (moderates) and `$3`
/// (family).
pub enum FeedCond {
    Or(Box<FeedCond>, Box<FeedCond>),
    And(Box<FeedCond>, Box<FeedCond>),
    /// `je.user_id = $1`
    AuthorIsViewer,
    /// `$2`
    ViewerModerates,
    /// `$3`
    ViewerIsFamily,
    /// `je.archived_at IS NULL`
    NotArchived,
    /// `je.visibility = 'public'`
    VisibilityPublic,
    /// `je.visibility = 'family'`
    VisibilityFamily,
}

/// The SQL text of a condition, each connective parenthesised.
pub open spec fn sql_text(c: FeedCond) -> Seq<char>
    decreases c,
{
    match c {
        FeedCond::Or(a, b) => "("@ + sql_text(*a) + " OR "@ + sql_text(*b) + ")"@,
        FeedCond::And(a, b) => "("@ + sql_text(*a) + " AND "@ + sql_text(*b) + ")"@,
        FeedCond::AuthorIsViewer => "je.user_id = $1"@,
        FeedCond::ViewerModerates => "$2"@,
        FeedCond::ViewerIsFamily => "$3"@,
        FeedCond::NotArchived => "je.archived_at IS NULL"@,
        FeedCond::VisibilityPublic => "je.visibility = 'public'"@,
        FeedCond::VisibilityFamily => "je.visibility = 'family'"@,
    }
}

/// What SQL makes of a condition for a row written by `author` with
/// `visibility`, archived or not, under the parameters `$1`, `$2`, `$3`.
pub open spec fn sql_holds(
    c: FeedCond,
    author: u128,
    visibility: Seq<char>,
    archived: bool,
    p1: u128,
    p2: bool,
    p3: bool,
) -> bool
    decreases c,
{
    match c {
        FeedCond::Or(a, b) => sql_holds(*a, author, visibility, archived, p1, p2, p3) || sql_holds(
            *b,
            author,
            visibility,
            archived,
            p1,
            p2,
            p3,
        ),
        FeedCond::And(a, b) => sql_holds(*a, author, visibility, archived, p1, p2, p3) && sql_holds(
            *b,
            author,
            visibility,
            archived,
            p1,
            p2,
            p3,
        ),
        FeedCond::AuthorIsViewer => author == p1,
        FeedCond::ViewerModerates => p2,
        FeedCond::ViewerIsFamily => p3,
        FeedCond::NotArchived => !archived,
        FeedCond::VisibilityPublic => visibility == "public"@,
        FeedCond::VisibilityFamily => visibility == "family"@,
    }
}

/// The feed's condition: the author, a moderator, or a live entry that is
/// public or, for family, family-visible.
pub open spec fn feed_condition() -> FeedCond {
    FeedCond::Or(
        Box::new(FeedCond::Or(Box::new(FeedCond::AuthorIsViewer), Box::new(FeedCond::ViewerModerates))),
        Box::new(
            FeedCond::And(
                Box::new(FeedCond::NotArchived),
                Box::new(
                    FeedCond::Or(
                        Box::new(FeedCond::VisibilityPublic),
                        Box::new(
                            FeedCond::And(Box::new(FeedCond::ViewerIsFamily), Box::new(FeedCond::VisibilityFamily)),
                        ),
                    ),
                ),
            ),
        ),
    )
}

/// The SQL twin of [`may_view`], as a `WHERE` fragment over `je`: `$1` is the
/// viewer's id, `$2` whether they moderate, `$3` whether they are family.
/// Kept as one string so the feed and its count cannot drift.
pub fn feed_where_clause() -> (s: &'static str)
    ensures
        s@ == sql_text(feed_condition()),
{
    proof {
        reveal_strlit("(");
        reveal_strlit(")");
        reveal_strlit(" OR ");
        reveal_strlit(" AND ");
        reveal_strlit("je.user_id = $1");
        reveal_strlit("$2");
        reveal_strlit("$3");
        reveal_strlit("je.archived_at IS NULL");
        reveal_strlit("je.visibility = 'public'");
        reveal_strlit("je.visibility = 'family'");
        reveal_strlit("((je.user_id = $1 OR $2) OR (je.archived_at IS NULL AND (je.visibility = 'public' OR ($3 AND je.visibility = 'family'))))");
        reveal_with_fuel(sql_text, 5);
    }
    let s = "((je.user_id = $1 OR $2) OR (je.archived_at IS NULL AND (je.visibility = 'public' OR ($3 AND je.visibility = 'family'))))";
    proof {
        assert(s@ =~= sql_text(feed_condition()));
    }
    s
}

/// The feed's fragment admits exactly the entries [`may_view`] lets the
/// viewer see, when `$1` is the viewer's id, `$2` whether they moderate and
/// `$3` whether they are family.
pub proof fn law_feed_fragment_is_may_view(
    author: u128,
    visibility: Seq<char>,
    archived: bool,
    viewer_id: u128,
    moderates: bool,
    is_family: bool,
)
    ensures
        sql_holds(feed_condition(), author, visibility, archived, viewer_id, moderates, is_family)
            == may_view_spec(
            ViewerContext { is_author: author == viewer_id, moderates, is_family },
            visibility,
            archived,
        ),
{
    reveal_with_fuel(sql_holds, 5);
}

/// Archiving hides an entry from everyone but its author and moderators;
/// neither of those ever loses sight of it.
pub proof fn law_archiving_hides_from_everyone_else(v: ViewerContext, visibility: Seq<char>)
    ensures
        may_view_spec(v, visibility, true) == (v.is_author || v.moderates),
        v.is_author || v.moderates ==> may_view_spec(v, visibility, false),
{
}

/// Whatever a viewer may see of an archived entry they may see of the live
/// one, and family sees everything a guest does.
pub proof fn law_visibility_is_monotone(v: ViewerContext, visibility: Seq<char>)
    ensures
        may_view_spec(v, visibility, true) ==> may_view_spec(v, visibility, false),
        may_view_spec(ViewerContext { is_family: false, ..v }, visibility, false) ==> may_view_spec(
            ViewerContext { is_family: true, ..v },
            visibility,
            false,
        ),
{
}

/// The trimmed title and story, refusing either when blank.
pub fn require_title_and_body<'a>(title: &'a str, body: &'a str) -> (r: Result<(&'a str, &'a str), AppError>)
    ensures
        trim_spec(title@).len() == 0 ==> r is Err && r->Err_0@ == (ErrorKind::BadRequest, "Title is required."@),
        trim_spec(title@).len() > 0 && trim_spec(body@).len() == 0 ==> r is Err && r->Err_0@ == (
            ErrorKind::BadRequest,
            "Story can't be empty."@,
        ),
        trim_spec(title@).len() > 0 && trim_spec(body@).len() > 0 ==> (r matches Ok((t, b)) && t@
            == trim_spec(title@) && b@ == trim_spec(body@)),
{
    let t = trim(title);
    if t.unicode_len() == 0 {
        return Err(AppError::new(ErrorKind::BadRequest, "Title is required."));
    }
    let b = trim(body);
    if b.unicode_len() == 0 {
        return Err(AppError::new(ErrorKind::BadRequest, "Story can't be empty."));
    }
    Ok((t, b))
}

/// A soft cap on photos per entry.
pub fn require_photo_room(existing: i64) -> (r: Result<(), AppError>)
    ensures
        r is Ok <==> existing < MAX_PHOTOS_PER_ENTRY,
        r is Err ==> r->Err_0@ == (ErrorKind::BadRequest, "A story can have up to 20 photos."@),
{
    if existing >= MAX_PHOTOS_PER_ENTRY {
        return Err(AppError::new(ErrorKind::BadRequest, "A story can have up to 20 photos."));
    }
    Ok(())
}

/// A submitted catch, with its two measurements already judged: each is
/// acceptable when absent or a finite, non-negative number.
#[derive(Debug, Clone)]
pub struct CatchFacts {
    pub id: Option<u128>,
    pub species_id: Option<u128>,
    pub length_acceptable: bool,
    pub weight_acceptable: bool,
    pub quantity: Option<i32>,
    pub notes: Option<String>,
}

/// A catch after validation, without its measurements (which travel
/// unchanged alongside it).
#[derive(Debug, Clone, PartialEq)]
pub struct CleanCatch {
    pub id: Option<u128>,
    pub species_id: Option<u128>,
    pub quantity: Option<i32>,
    pub notes: Option<String>,
}

pub open spec fn catch_ok(c: CatchFacts) -> bool {
    &&& !(c.quantity matches Some(q) && q < 1)
    &&& c.length_acceptable
    &&& c.weight_acceptable
}

/// The error a rejected catch earns, checked in the order the fields appear.
pub open spec fn catch_error(c: CatchFacts) -> Seq<char> {
    if c.quantity matches Some(q) && q < 1 {
        "A catch needs a quantity of at least 1."@
    } else if !c.length_acceptable {
        "That length doesn't look right."@
    } else {
        "That weight doesn't look right."@
    }
}

pub open spec fn cleaned_catch(c: CatchFacts, out: CleanCatch) -> bool {
    &&& out.id == c.id
    &&& out.species_id == c.species_id
    &&& out.quantity == c.quantity
    &&& opt_view(out.notes) == cleaned(opt_view(c.notes))
}

/// Validates a catch log: at most [`MAX_CATCHES_PER_ENTRY`] rows, quantities
/// of at least one, sane measurements, and blank notes stored as nothing.
pub fn clean_catches(catches: &[CatchFacts]) -> (r: Result<Vec<CleanCatch>, AppError>)
    ensures
        catches@.len() > MAX_CATCHES_PER_ENTRY ==> r is Err && r->Err_0@ == (
            ErrorKind::BadRequest,
            "A story can log up to 25 catches."@,
        ),
        catches@.len() <= MAX_CATCHES_PER_ENTRY ==> (r is Ok <==> forall|i: int|
            0 <= i < catches@.len() ==> catch_ok(#[trigger] catches@[i])),
        catches@.len() <= MAX_CATCHES_PER_ENTRY && r is Err ==> exists|i: int|
            0 <= i < catches@.len() && !catch_ok(#[trigger] catches@[i]) && (forall|j: int|
                0 <= j < i ==> catch_ok(#[trigger] catches@[j])) && r->Err_0@ == (
                ErrorKind::BadRequest,
                catch_error(catches@[i]),
            ),
        r matches Ok(v) ==> v@.len() == catches@.len() && forall|i: int|
            0 <= i < catches@.len() ==> cleaned_catch(#[trigger] catches@[i], v@[i]),
{
    if catches.len() > MAX_CATCHES_PER_ENTRY {
        return Err(AppError::new(ErrorKind::BadRequest, "A story can log up to 25 catches."));
    }
    let mut out: Vec<CleanCatch> = Vec::new();
    let mut i: usize = 0;
    while i < catches.len()
        invariant
            catches@.len() <= MAX_CATCHES_PER_ENTRY,
            i <= catches@.len(),
            out@.len() == i,
            forall|j: int| 0 <= j < i ==> catch_ok(#[trigger] catches@[j]),
            forall|j: int| 0 <= j < i ==> cleaned_catch(#[trigger] catches@[j], out@[j]),
        decreases catches@.len() - i,
    {
        let c = &catches[i];
        let bad_quantity = match c.quantity {
            Some(q) => q < 1,
            None => false,
        };
        if bad_quantity {
            return Err(AppError::new(ErrorKind::BadRequest, "A catch needs a quantity of at least 1."));
        }
        if !c.length_acceptable {
            return Err(AppError::new(ErrorKind::BadRequest, "That length doesn't look right."));
        }
        if !c.weight_acceptable {
            return Err(AppError::new(ErrorKind::BadRequest, "That weight doesn't look right."));
        }
        let notes = crate::text::clean(c.notes.clone());
        out.push(CleanCatch { id: c.id, species_id: c.species_id, quantity: c.quantity, notes });
        i = i + 1;
    }
    Ok(out)
}

/// The submitted ids that name a row of this entry, in submission order.
pub open spec fn surviving(submitted: Seq<CleanCatch>, mine: Seq<u128>) -> Seq<u128>
    decreases submitted.len(),
{
    if submitted.len() == 0 {
        Seq::empty()
    } else {
        let rest = surviving(submitted.drop_last(), mine);
        match submitted.last().id {
            Some(id) => if mine.contains(id) {
                rest.push(id)
            } else {
                rest
            },
            None => rest,
        }
    }
}

/// Which of this entry's existing catch rows a submitted list keeps alive:
/// an id is honoured only if it names a row of this entry.
pub fn surviving_catch_ids(submitted: &[CleanCatch], mine: &[u128]) -> (r: Vec<u128>)
    ensures
        r@ == surviving(submitted@, mine@),
{
    let mut out: Vec<u128> = Vec::new();
    let mut i: usize = 0;
    while i < submitted.len()
        invariant
            i <= submitted@.len(),
            out@ == surviving(submitted@.subrange(0, i as int), mine@),
        decreases submitted@.len() - i,
    {
        proof {
            assert(submitted@.subrange(0, i + 1).drop_last() =~= submitted@.subrange(0, i as int));
        }
        match submitted[i].id {
            Some(id) => {
                let mut k: usize = 0;
                let mut found = false;
                while k < mine.len()
                    invariant
                        k <= mine@.len(),
                        found == exists|j: int| 0 <= j < k && mine@[j] == id,
                    decreases mine@.len() - k,
                {
                    if mine[k] == id {
                        found = true;
                    }
                    k = k + 1;
                }
                if found {
                    out.push(id);
                }
            },
            None => {},
        }
        i = i + 1;
    }
    proof {
        assert(submitted@.subrange(0, submitted@.len() as int) =~= submitted@);
    }
    out
}

/// Only ids of this entry ever survive a save: nothing reaches across entries.
pub proof fn law_only_own_rows_survive(submitted: Seq<CleanCatch>, mine: Seq<u128>)
    ensures
        forall|i: int| 0 <= i < surviving(submitted, mine).len() ==> mine.contains(
            #[trigger] surviving(submitted, mine)[i],
        ),
    decreases submitted.len(),
{
    if submitted.len() > 0 {
        law_only_own_rows_survive(submitted.drop_last(), mine);
        let rest = surviving(submitted.drop_last(), mine);
        assert forall|i: int| 0 <= i < surviving(submitted, mine).len() implies mine.contains(
            #[trigger] surviving(submitted, mine)[i],
        ) by {
            if i < rest.len() {
                assert(surviving(submitted, mine)[i] == rest[i]);
            }
        }
    }
}

/// What one submitted row contributes on its own: its id when it names a
/// row of this entry, and nothing otherwise (a new row, or a foreign id).
pub proof fn law_one_row_alone(c: CleanCatch, mine: Seq<u128>)
    ensures
        surviving(seq![c], mine) == (match c.id {
            Some(id) => if mine.contains(id) {
                seq![id]
            } else {
                Seq::<u128>::empty()
            },
            None => Seq::<u128>::empty(),
        }),
{
    reveal_with_fuel(surviving, 2);
    assert(seq![c].drop_last() =~= Seq::<CleanCatch>::empty());
    assert(seq![c].last() == c);
    if let Some(id) = c.id {
        if mine.contains(id) {
            assert(Seq::<u128>::empty().push(id) =~= seq![id]);
        }
    }
}

/// Saving a list keeps, in order, what saving its front part keeps followed
/// by what saving the rest keeps: no row, with an id or without, changes
/// the fate of the rows around it.
pub proof fn law_rows_decide_independently(a: Seq<CleanCatch>, b: Seq<CleanCatch>, mine: Seq<u128>)
    ensures
        surviving(a + b, mine) == surviving(a, mine) + surviving(b, mine),
    decreases b.len(),
{
    if b.len() == 0 {
        assert(a + b =~= a);
        assert(surviving(a, mine) + surviving(b, mine) =~= surviving(a, mine));
    } else {
        let b0 = b.drop_last();
        law_rows_decide_independently(a, b0, mine);
        assert((a + b).drop_last() =~= a + b0);
        assert((a + b).last() == b.last());
        let l = surviving(a, mine);
        let r0 = surviving(b0, mine);
        if let Some(id) = b.last().id {
            if mine.contains(id) {
                assert((l + r0).push(id) =~= l + r0.push(id));
            }
        }
    }
}

/// Every submitted row that carries an id of this entry survives, whatever
/// rows stand before or after it.
pub proof fn law_every_kept_row_survives(submitted: Seq<CleanCatch>, mine: Seq<u128>, i: int, id: u128)
    requires
        0 <= i < submitted.len(),
        submitted[i].id == Some(id),
        mine.contains(id),
    ensures
        surviving(submitted, mine).contains(id),
{
    let front = submitted.subrange(0, i);
    let row = seq![submitted[i]];
    let back = submitted.subrange(i + 1, submitted.len() as int);
    assert(submitted =~= front + row + back);
    law_rows_decide_independently(front + row, back, mine);
    law_rows_decide_independently(front, row, mine);
    law_one_row_alone(submitted[i], mine);
    let kept = surviving(front, mine) + seq![id] + surviving(back, mine);
    assert(surviving(submitted, mine) == kept);
    assert(kept[surviving(front, mine).len() as int] == id);
}

} // verus!
