use vstd::prelude::*;

verus! {

/// The identifier that asks the store to assign a fresh one.
pub const NIL_ID: u128 = 0;

/// A UTC instant: whole seconds since the Unix epoch and the nanoseconds
/// past that second.
#[derive(Clone, Copy, Debug, PartialEq, Eq, Structural)]
pub struct Timestamp {
    pub secs: i64,
    pub nanos: u32,
}

/// `a` is no later than `b`.
pub open spec fn ts_le(a: Timestamp, b: Timestamp) -> bool {
    a.secs < b.secs || (a.secs == b.secs && a.nanos <= b.nanos)
}

/// `a` is strictly earlier than `b`.
pub open spec fn ts_lt(a: Timestamp, b: Timestamp) -> bool {
    a.secs < b.secs || (a.secs == b.secs && a.nanos < b.nanos)
}

impl Timestamp {
    pub fn is_before(&self, other: &Timestamp) -> (r: bool)
        ensures
            r == ts_lt(*self, *other),
    {
        self.secs < other.secs || (self.secs == other.secs && self.nanos < other.nanos)
    }
}

/// One record of the store. `details` holds the entry's free-form structured
/// payload as JSON text; the store carries it without reading it.
#[derive(Debug)]
pub struct Entry {
    pub id: u128,
    pub template_type: String,
    pub title: String,
    pub description: String,
    pub tags: Vec<String>,
    pub frequency: Option<String>,
    pub status: String,
    pub event_date: Option<Timestamp>,
    pub details: String,
    pub created_at: Timestamp,
    pub updated_at: Option<Timestamp>,
}

/// The mathematical value of an [`Entry`].
pub ghost struct EntryModel {
    pub id: u128,
    pub template_type: Seq<char>,
    pub title: Seq<char>,
    pub description: Seq<char>,
    pub tags: Seq<Seq<char>>,
    pub frequency: Option<Seq<char>>,
    pub status: Seq<char>,
    pub event_date: Option<Timestamp>,
    pub details: Seq<char>,
    pub created_at: Timestamp,
    pub updated_at: Option<Timestamp>,
}

pub open spec fn opt_str_view(o: Option<String>) -> Option<Seq<char>> {
    match o {
        Some(s) => Some(s@),
        None => None,
    }
}

pub open spec fn strs_view(v: Seq<String>) -> Seq<Seq<char>> {
    v.map_values(|s: String| s@)
}

impl View for Entry {
    type V = EntryModel;

    open spec fn view(&self) -> EntryModel {
        EntryModel {
            id: self.id,
            template_type: self.template_type@,
            title: self.title@,
            description: self.description@,
            tags: strs_view(self.tags@),
            frequency: opt_str_view(self.frequency),
            status: self.status@,
            event_date: self.event_date,
            details: self.details@,
            created_at: self.created_at,
            updated_at: self.updated_at,
        }
    }
}

/// The models of a sequence of entries.
pub open spec fn models(s: Seq<Entry>) -> Seq<EntryModel> {
    s.map_values(|e: Entry| e@)
}

/// The status every entry receives when it is created.
pub open spec fn active_status() -> Seq<char> {
    seq!['A', 'c', 't', 'i', 'v', 'e']
}

/// The status an entry is given on creation.
pub fn default_status() -> (r: String)
    ensures
        r@ == active_status(),
{
    let s = String::from_str("Active");
    proof {
        reveal_strlit("Active");
    }
    assert(s@ =~= active_status());
    s
}

fn copy_strings(v: &Vec<String>) -> (r: Vec<String>)
    ensures
        strs_view(r@) == strs_view(v@),
{
    let mut r: Vec<String> = Vec::new();
    let mut i: usize = 0;
    while i < v.len()
        invariant
            i <= v.len(),
            r@.len() == i,
            forall|j: int| 0 <= j < i ==> r@[j]@ == v@[j]@,
        decreases v.len() - i,
    {
        r.push(v[i].clone());
        i += 1;
    }
    assert(strs_view(r@) =~= strs_view(v@));
    r
}

fn copy_opt_string(o: &Option<String>) -> (r: Option<String>)
    ensures
        opt_str_view(r) == opt_str_view(*o),
{
    match o {
        Some(s) => Some(s.clone()),
        None => None,
    }
}

impl Clone for Entry {
    fn clone(&self) -> (r: Self)
        ensures
            r@ == self@,
    {
        Entry {
            id: self.id,
            template_type: self.template_type.clone(),
            title: self.title.clone(),
            description: self.description.clone(),
            tags: copy_strings(&self.tags),
            frequency: copy_opt_string(&self.frequency),
            status: self.status.clone(),
            event_date: self.event_date,
            details: self.details.clone(),
            created_at: self.created_at,
            updated_at: self.updated_at,
        }
    }
}

} // verus!
