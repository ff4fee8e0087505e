//! Routes for conferences: listings, creation and updates.

use crate::auth::admin_jwt::AdminClaims;
use crate::database::models::conference::Conference;
use crate::http::Status;
use crate::text::contains_id;
use crate::time::{in_chrono_range, timestamp_opt, Timestamp};
use vstd::prelude::*;

verus! {

broadcast use vstd::seq_lib::group_filter_ensures;

/// Which conferences an admin's listing holds.
#[derive(Clone, Copy, Debug, PartialEq, Eq, Structural)]
pub enum ConferenceScope {
    /// Every conference (superusers).
    All,
    /// The conferences that list this admin among their admins.
    ManagedBy(i32),
}

/// The form that updates a conference. Timestamps are in seconds since the
/// Unix epoch; coordinates are IEEE-754 bit patterns of `f64` degrees.
#[derive(Debug)]
pub struct UpdateConference {
    pub title: String,
    pub password: Option<String>,
    pub start_ts: u64,
    pub end_ts: u64,
    pub top_left_lat_bits: u64,
    pub top_left_lon_bits: u64,
    pub width_in_tiles: i16,
    pub height_in_tiles: i16,
    pub add_admins: Vec<i32>,
    pub remove_admins: Vec<i32>,
}

/// The admins that stay after removing those in `remove`, in their order.
pub open spec fn kept_admins(admins: Seq<i32>, remove: Seq<i32>) -> Seq<i32> {
    admins.filter(|id: i32| !remove.contains(id))
}

/// The admin list after an update: the kept admins, then the added ones.
pub open spec fn updated_admins(admins: Seq<i32>, add: Seq<i32>, remove: Seq<i32>) -> Seq<i32> {
    kept_admins(admins, remove) + add
}

/// The form's timestamps as chrono reads them (`as i64`, as the route casts).
pub open spec fn form_times_valid(form: UpdateConference) -> bool {
    in_chrono_range(form.start_ts as i64 as int) && in_chrono_range(form.end_ts as i64 as int)
}

/// The summary of each public conference: its id and title.
pub fn public_summaries(confs: &Vec<Conference>) -> (r: Vec<(i32, String)>)
    ensures
        r@.len() == confs@.len(),
        forall|i: int| 0 <= i < confs@.len() ==> (#[trigger] r@[i]).0 == confs@[i].id && r@[i].1 == confs@[i].title,
{
    let mut r: Vec<(i32, String)> = Vec::new();
    let mut i: usize = 0;
    while i < confs.len()
        invariant
            i <= confs@.len(),
            r@.len() == i,
            forall|j: int| 0 <= j < i ==> (#[trigger] r@[j]).0 == confs@[j].id && r@[j].1 == confs@[j].title,
        decreases confs.len() - i,
    {
        r.push((confs[i].id, confs[i].title.clone()));
        i += 1;
    }
    r
}

/// Superusers see every conference, other admins those they manage.
pub fn managed_scope(admin: &AdminClaims) -> (s: ConferenceScope)
    ensures
        s == (if admin.superuser { ConferenceScope::All } else { ConferenceScope::ManagedBy(admin.id) }),
{
    if admin.superuser {
        ConferenceScope::All
    } else {
        ConferenceScope::ManagedBy(admin.id)
    }
}

/// A new conference is managed by the admin who creates it, alone.
pub fn initial_admins(admin: &AdminClaims) -> (ids: Vec<i32>)
    ensures
        ids@ == seq![admin.id],
{
    let mut ids: Vec<i32> = Vec::new();
    ids.push(admin.id);
    ids
}

fn kept(admins: &Vec<i32>, remove: &Vec<i32>) -> (r: Vec<i32>)
    ensures
        r@ == kept_admins(admins@, remove@),
{
    let ghost pred = |id: i32| !remove@.contains(id);
    let mut r: Vec<i32> = Vec::new();
    let mut i: usize = 0;
    while i < admins.len()
        invariant
            i <= admins@.len(),
            pred == (|id: i32| !remove@.contains(id)),
            r@ == admins@.take(i as int).filter(pred),
        decreases admins.len() - i,
    {
        let id = admins[i];
        proof {
            admins@.take(i as int).lemma_filter_push(id, pred);
            assert(admins@.take(i as int).push(id) =~= admins@.take(i + 1));
        }
        if !contains_id(remove, id) {
            r.push(id);
        }
        i += 1;
    }
    assert(admins@.take(admins@.len() as int) =~= admins@);
    r
}

impl UpdateConference {
    /// The conference after the update: the form's fields replace the old
    /// ones, the admins in `remove_admins` leave and those in `add_admins`
    /// join at the end. A timestamp that chrono cannot represent is answered
    /// with a server error.
    pub fn apply(self, conf: Conference) -> (r: Result<Conference, Status>)
        ensures
            r is Err <==> !form_times_valid(self),
            r matches Err(s) ==> s == Status::InternalServerError,
            r matches Ok(c) ==> {
                &&& c.id == conf.id
                &&& c.title == self.title
                &&& c.info == conf.info
                &&& c.password == self.password
                &&& c.start_ts == (Timestamp { secs: self.start_ts as i64, nanos: 0 })
                &&& c.end_ts == (Timestamp { secs: self.end_ts as i64, nanos: 0 })
                &&& c.top_left_lat_bits == self.top_left_lat_bits
                &&& c.top_left_lon_bits == self.top_left_lon_bits
                &&& c.width_in_tiles == self.width_in_tiles
                &&& c.height_in_tiles == self.height_in_tiles
                &&& c.admins@ == updated_admins(conf.admins@, self.add_admins@, self.remove_admins@)
            },
    {
        let start = match timestamp_opt(self.start_ts as i64) {
            Some(t) => t,
            None => return Err(Status::InternalServerError),
        };
        let end = match timestamp_opt(self.end_ts as i64) {
            Some(t) => t,
            None => return Err(Status::InternalServerError),
        };
        let mut admins = kept(&conf.admins, &self.remove_admins);
        let mut i: usize = 0;
        let ghost base = admins@;
        while i < self.add_admins.len()
            invariant
                i <= self.add_admins@.len(),
                admins@ == base + self.add_admins@.take(i as int),
            decreases self.add_admins.len() - i,
        {
            admins.push(self.add_admins[i]);
            assert(self.add_admins@.take(i as int).push(self.add_admins@[i as int]) =~= self.add_admins@.take(i + 1));
            i += 1;
        }
        assert(self.add_admins@.take(self.add_admins@.len() as int) =~= self.add_admins@);
        Ok(Conference {
            id: conf.id,
            title: self.title,
            info: conf.info,
            password: self.password,
            start_ts: Timestamp { secs: start, nanos: 0 },
            end_ts: Timestamp { secs: end, nanos: 0 },
            top_left_lat_bits: self.top_left_lat_bits,
            top_left_lon_bits: self.top_left_lon_bits,
            width_in_tiles: self.width_in_tiles,
            height_in_tiles: self.height_in_tiles,
            admins,
        })
    }
}

/// After an update, an id is among the admins exactly when the form adds it,
/// or it was there before and the form does not remove it; the kept admins
/// keep their order and come first.
pub proof fn lemma_admin_membership(admins: Seq<i32>, add: Seq<i32>, remove: Seq<i32>, id: i32)
    ensures
        updated_admins(admins, add, remove).contains(id) <==> (add.contains(id) || (admins.contains(
            id,
        ) && !remove.contains(id))),
        updated_admins(admins, add, remove).subrange(0, kept_admins(admins, remove).len() as int)
            == kept_admins(admins, remove),
{
    let pred = |x: i32| !remove.contains(x);
    let k = kept_admins(admins, remove);
    let u = updated_admins(admins, add, remove);
    assert(u.subrange(0, k.len() as int) =~= k);
    if u.contains(id) {
        let i = choose|i: int| 0 <= i < u.len() && u[i] == id;
        if i < k.len() {
            assert(k.contains(id));
            admins.lemma_filter_contains_rev(pred, id);
            let j = choose|j: int| 0 <= j < k.len() && k[j] == id;
            assert(pred(k[j]));
        } else {
            assert(add[i - k.len()] == id);
        }
    }
    if add.contains(id) {
        let i = choose|i: int| 0 <= i < add.len() && add[i] == id;
        assert(u[k.len() + i] == id);
    }
    if admins.contains(id) && !remove.contains(id) {
        let i = choose|i: int| 0 <= i < admins.len() && admins[i] == id;
        admins.lemma_filter_contains(pred, i);
        let j = choose|j: int| 0 <= j < k.len() && k[j] == id;
        assert(u[j] == id);
    }
}

} // verus!
