use vstd::prelude::*;

verus! {

/// What `str::to_lowercase` makes of a name.
pub uninterp spec fn lower_of(s: Seq<char>) -> Seq<char>;

/// Relies on str::to_lowercase: the result depends on the characters alone.
#[verifier::external_body]
fn lowercase(s: &str) -> (r: String)
    ensures
        r@ == lower_of(s@),
{
    s.to_lowercase()
}

/// Relies on str::starts_with with a string pattern: true exactly when the
/// pattern is a prefix of the string.
#[verifier::external_body]
fn starts_with(s: &str, p: &str) -> (r: bool)
    ensures
        r == (p@.len() <= s@.len() && s@.subrange(0, p@.len() as int) == p@),
{
    s.starts_with(p)
}

/// Whether a case-folded advertised name belongs to a device of the family.
pub open spec fn is_device_name(n: Seq<char>) -> bool {
    "mitch"@.len() <= n.len() && n.subrange(0, "mitch"@.len() as int) == "mitch"@
}

/// Whether a case-folded name is a new device for a scanner that has seen
/// `seen`.
pub open spec fn admits(seen: Seq<Seq<char>>, n: Seq<char>) -> bool {
    is_device_name(n) && !seen.contains(n)
}

/// The names seen after a case-folded name is offered.
pub open spec fn seen_after(seen: Seq<Seq<char>>, n: Seq<char>) -> Seq<Seq<char>> {
    if admits(seen, n) {
        seen.push(n)
    } else {
        seen
    }
}

/// The advertised name of a discovery event, empty when there is none.
pub open spec fn advertised(local_name: Option<&str>) -> Seq<char> {
    match local_name {
        Some(s) => s@,
        None => Seq::empty(),
    }
}

/// The notification sent when a new device is found.
pub struct MitchDiscovered<'a> {
    pub name: &'a str,
}

/// The discovery filter: the case-folded names of the devices found so far,
/// each once, in order of discovery.
pub struct Scanner {
    seen: Vec<String>,
}

impl View for Scanner {
    type V = Seq<Seq<char>>;

    closed spec fn view(&self) -> Seq<Seq<char>> {
        self.seen@.map_values(|s: String| s@)
    }
}

impl Scanner {
    /// No name seen twice.
    pub open spec fn wf(&self) -> bool {
        self@.no_duplicates()
    }

    /// A scanner that has seen nothing.
    pub fn new() -> (r: Scanner)
        ensures
            r@ == Seq::<Seq<char>>::empty(),
            r.wf(),
    {
        let r = Scanner { seen: Vec::new() };
        assert(r@ =~= Seq::<Seq<char>>::empty());
        r
    }

    /// Number of devices found.
    pub fn len(&self) -> (r: usize)
        ensures
            r == self@.len(),
    {
        self.seen.len()
    }

    /// Whether a case-folded name was seen.
    pub fn contains(&self, name: &String) -> (r: bool)
        ensures
            r == self@.contains(name@),
    {
        let mut i: usize = 0;
        while i < self.seen.len()
            invariant
                0 <= i <= self.seen@.len(),
                forall|j: int| 0 <= j < i ==> self@[j] != name@,
            decreases self.seen@.len() - i,
        {
            if self.seen[i] == *name {
                assert(self@[i as int] == name@);
                return true;
            }
            i = i + 1;
        }
        false
    }

    /// Offers a case-folded name: a new device name is recorded and returned,
    /// to be registered and announced; anything else is ignored.
    pub fn offer(&mut self, folded: String) -> (r: Option<String>)
        requires
            old(self).wf(),
        ensures
            final(self).wf(),
            final(self)@ == seen_after(old(self)@, folded@),
            r is Some <==> admits(old(self)@, folded@),
            r matches Some(n) ==> n@ == folded@,
    {
        let is_device = starts_with(folded.as_str(), "mitch");
        if !is_device || self.contains(&folded) {
            return None;
        }
        let name = folded.clone();
        self.seen.push(folded);
        assert(self@ =~= seen_after(old(self)@, name@));
        Some(name)
    }

    /// Handles one discovery event carrying the advertised local name, if
    /// the peripheral has one: the name is case-folded and offered.
    pub fn observe(&mut self, local_name: Option<&str>) -> (r: Option<String>)
        requires
            old(self).wf(),
        ensures
            final(self).wf(),
            final(self)@ == seen_after(old(self)@, lower_of(advertised(local_name))),
            r is Some <==> admits(old(self)@, lower_of(advertised(local_name))),
            r matches Some(n) ==> n@ == lower_of(advertised(local_name)),
    {
        let folded = match local_name {
            Some(s) => lowercase(s),
            None => lowercase(""),
        };
        proof {
            if local_name is None {
                reveal_strlit("");
                assert(advertised(local_name) =~= ""@);
            }
        }
        self.offer(folded)
    }
}

/// Offering the same case-folded name twice records it at most once and
/// reports a new device at most once: the second offer is always ignored.
pub proof fn lemma_dedup(seen: Seq<Seq<char>>, n: Seq<char>)
    ensures
        !admits(seen_after(seen, n), n),
        seen_after(seen_after(seen, n), n) == seen_after(seen, n),
        seen_after(seen, n).len() <= seen.len() + 1,
        seen_after(seen, n).contains(n) == is_device_name(n) || seen.contains(n),
{
    if admits(seen, n) {
        assert(seen.push(n)[seen.len() as int] == n);
    }
}

} // verus!
