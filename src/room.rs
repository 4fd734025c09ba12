use vstd::prelude::*;

verus! {

/// A chat room: its owner (the key of the room registry), a display name,
/// and the identities that joined it as guests.
#[derive(Debug, Clone)]
pub struct Room {
    pub owner: String,
    pub name: String,
    pub guests: Vec<String>,
}

/// The identities held by a list of strings, as character sequences.
pub open spec fn names(v: Seq<String>) -> Seq<Seq<char>> {
    v.map_values(|s: String| s@)
}

/// What a room is, mathematically.
pub struct RoomModel {
    pub owner: Seq<char>,
    pub name: Seq<char>,
    pub guests: Seq<Seq<char>>,
}

impl View for Room {
    type V = RoomModel;

    open spec fn view(&self) -> RoomModel {
        RoomModel { owner: self.owner@, name: self.name@, guests: names(self.guests@) }
    }
}

/// The model of a room list.
pub open spec fn rooms_model(v: Seq<Room>) -> Seq<RoomModel> {
    v.map_values(|r: Room| r@)
}

/// A fresh copy of a list of identities.
pub fn copy_names(v: &Vec<String>) -> (r: Vec<String>)
    ensures
        names(r@) == names(v@),
{
    let mut out: Vec<String> = Vec::new();
    let mut i: usize = 0;
    while i < v.len()
        invariant
            i <= v.len(),
            out@.len() == i,
            forall|j: int| 0 <= j < i ==> out@[j]@ == v@[j]@,
        decreases v.len() - i,
    {
        out.push(v[i].clone());
        i += 1;
    }
    assert(names(out@) =~= names(v@));
    out
}

/// The identities of `s` other than `who`, in their order.
pub open spec fn absent(s: Seq<Seq<char>>, who: Seq<char>) -> Seq<Seq<char>> {
    s.filter(|c: Seq<char>| c != who)
}

/// One more element of a prefix, through `filter`.
pub proof fn lemma_filter_take<A>(s: Seq<A>, i: int, p: spec_fn(A) -> bool)
    requires
        0 <= i < s.len(),
    ensures
        s.take(i + 1).filter(p) == (if p(s[i]) {
            s.take(i).filter(p).push(s[i])
        } else {
            s.take(i).filter(p)
        }),
{
    reveal(Seq::filter);
    assert(s.take(i + 1).drop_last() =~= s.take(i));
    assert(s.take(i + 1).last() == s[i]);
}

/// A filter keeps a sequence whole when every element passes it.
pub proof fn lemma_filter_all<A>(s: Seq<A>, p: spec_fn(A) -> bool)
    requires
        forall|i: int| 0 <= i < s.len() ==> p(#[trigger] s[i]),
    ensures
        s.filter(p) == s,
    decreases s.len(),
{
    reveal(Seq::filter);
    if s.len() > 0 {
        lemma_filter_all(s.drop_last(), p);
        assert(s.drop_last().push(s.last()) =~= s);
    }
}

/// Every element that a filter keeps comes from the sequence.
pub proof fn lemma_filter_from<A>(s: Seq<A>, p: spec_fn(A) -> bool)
    ensures
        forall|i: int| 0 <= i < s.filter(p).len() ==> s.contains(#[trigger] s.filter(p)[i]),
    decreases s.len(),
{
    reveal(Seq::filter);
    if s.len() > 0 {
        lemma_filter_from(s.drop_last(), p);
        let sub = s.drop_last().filter(p);
        assert forall|i: int| 0 <= i < s.filter(p).len() implies s.contains(
            #[trigger] s.filter(p)[i],
        ) by {
            if i < sub.len() {
                assert(s.filter(p)[i] == sub[i]);
                assert(s.drop_last().contains(sub[i]));
                let j = choose|j: int| 0 <= j < s.drop_last().len() && s.drop_last()[j] == sub[i];
                assert(s[j] == sub[i]);
            } else {
                assert(s[s.len() - 1] == s.filter(p)[i]);
            }
        }
    }
}

/// Whether the list holds the identity `x`.
pub fn contains_name(v: &Vec<String>, x: &String) -> (r: bool)
    ensures
        r == names(v@).contains(x@),
{
    let mut i: usize = 0;
    while i < v.len()
        invariant
            i <= v.len(),
            forall|j: int| 0 <= j < i ==> v@[j]@ != x@,
        decreases v.len() - i,
    {
        if v[i] == *x {
            assert(names(v@)[i as int] == x@);
            return true;
        }
        i += 1;
    }
    assert(!names(v@).contains(x@)) by {
        if names(v@).contains(x@) {
            let k = choose|k: int| 0 <= k < names(v@).len() && names(v@)[k] == x@;
            assert(v@[k]@ == x@);
        }
    }
    false
}

/// The list without any occurrence of `x`, the others kept in order.
pub fn without_name(v: &Vec<String>, x: &String) -> (r: Vec<String>)
    ensures
        names(r@) == absent(names(v@), x@),
{
    let mut out: Vec<String> = Vec::new();
    let mut i: usize = 0;
    while i < v.len()
        invariant
            i <= v.len(),
            names(out@) == absent(names(v@).take(i as int), x@),
        decreases v.len() - i,
    {
        proof {
            lemma_filter_take(names(v@), i as int, |c: Seq<char>| c != x@);
            assert(names(v@).take(i as int + 1) =~= names(v@.take(i as int + 1)));
            assert(names(v@).take(i as int) =~= names(v@.take(i as int)));
        }
        if v[i] != *x {
            let ghost before = out@;
            out.push(v[i].clone());
            assert(names(out@) =~= names(before).push(v@[i as int]@));
        }
        i += 1;
    }
    assert(names(v@).take(v.len() as int) =~= names(v@));
    out
}

impl Room {
    /// A fresh room equal to this one.
    pub fn copy(&self) -> (r: Room)
        ensures
            r@ == self@,
    {
        Room { owner: self.owner.clone(), name: self.name.clone(), guests: copy_names(&self.guests) }
    }
}

/// A fresh copy of a room list, taken as a snapshot of the registry.
pub fn copy_rooms(v: &Vec<Room>) -> (r: Vec<Room>)
    ensures
        rooms_model(r@) == rooms_model(v@),
{
    let mut out: Vec<Room> = Vec::new();
    let mut i: usize = 0;
    while i < v.len()
        invariant
            i <= v.len(),
            out@.len() == i,
            forall|j: int| 0 <= j < i ==> out@[j]@ == v@[j]@,
        decreases v.len() - i,
    {
        out.push(v[i].copy());
        i += 1;
    }
    assert(rooms_model(out@) =~= rooms_model(v@));
    out
}

} // verus!
