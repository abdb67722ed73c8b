//! Game keys and the stack of keys held down, where among keys of one group
//! only the most recently pressed one counts.

use vstd::prelude::*;

verus! {

/// An action bound to a keyboard key.
#[derive(Clone, Copy, Debug, PartialEq, Eq, Structural)]
pub enum GameKey {
    NoOp,
    Run,
    Walk,
    Right,
    Left,
    Forward,
    Backwards,
    VsyncToggle,
    Quit,
}

/// A set of keys that cancel each other: of the keys held in one group only
/// the latest counts.
#[derive(Clone, Copy, Debug, PartialEq, Eq, Structural, Hash)]
pub enum GameKeyGroup {
    Horizontal,
    Vertical,
}

/// The groups of a key.
pub open spec fn key_groups(k: GameKey) -> Seq<GameKeyGroup> {
    match k {
        GameKey::Right | GameKey::Left => seq![GameKeyGroup::Horizontal],
        GameKey::Forward | GameKey::Backwards => seq![GameKeyGroup::Vertical],
        _ => seq![],
    }
}

impl GameKey {
    pub fn groups(self) -> (r: Vec<GameKeyGroup>)
        ensures
            r@ == key_groups(self),
    {
        let mut r: Vec<GameKeyGroup> = Vec::new();
        match self {
            GameKey::Right | GameKey::Left => r.push(GameKeyGroup::Horizontal),
            GameKey::Forward | GameKey::Backwards => r.push(GameKeyGroup::Vertical),
            _ => {},
        }
        assert(r@ =~= key_groups(self));
        r
    }
}

/// Whether some key of `keys` belongs to group `g`.
pub open spec fn group_taken(keys: Seq<GameKey>, g: GameKeyGroup) -> bool {
    exists|i: int| 0 <= i < keys.len() && key_groups(keys[i]).contains(g)
}

/// Whether a group of `k` is already taken by a key of `kept`.
pub open spec fn blocked(k: GameKey, kept: Seq<GameKey>) -> bool {
    exists|g: GameKeyGroup| key_groups(k).contains(g) && group_taken(kept, g)
}

/// The keys kept from the last `m` keys of `s`, scanned from the newest:
/// a key is kept unless one of its groups is taken by a key kept before it.
pub open spec fn normalized(s: Seq<GameKey>, m: int) -> Seq<GameKey>
    decreases m,
{
    if m <= 0 {
        seq![]
    } else {
        let prev = normalized(s, m - 1);
        let k = s[s.len() - m];
        if blocked(k, prev) {
            prev
        } else {
            prev.push(k)
        }
    }
}

/// Keys held down, oldest first.
#[derive(Clone, Debug, PartialEq, Eq)]
pub struct KeyStack {
    pub stack: Vec<GameKey>,
}

fn contains_key(keys: &Vec<GameKey>, key: GameKey) -> (r: bool)
    ensures
        r == keys@.contains(key),
{
    let mut i: usize = 0;
    while i < keys.len()
        invariant
            i <= keys@.len(),
            forall|j: int| 0 <= j < i ==> keys@[j] != key,
        decreases keys@.len() - i,
    {
        if keys[i] == key {
            return true;
        }
        i = i + 1;
    }
    false
}

impl KeyStack {
    pub fn new() -> (r: KeyStack)
        ensures
            r.stack@ == Seq::<GameKey>::empty(),
    {
        KeyStack { stack: Vec::new() }
    }

    /// The keys that count, newest first: of the keys of one group only the
    /// newest is kept.
    pub fn normalize(&self) -> (r: KeyStack)
        ensures
            r.stack@ == normalized(self.stack@, self.stack@.len() as int),
    {
        let n = self.stack.len();
        let mut encountered: Vec<GameKeyGroup> = Vec::new();
        let mut new = KeyStack::new();
        let mut m: usize = 0;
        while m < n
            invariant
                n == self.stack@.len(),
                m <= n,
                new.stack@ == normalized(self.stack@, m as int),
                forall|g: GameKeyGroup| #[trigger]
                    encountered@.contains(g) <==> group_taken(new.stack@, g),
            decreases n - m,
        {
            let current = self.stack[n - 1 - m];
            let groups = current.groups();
            let mut clash = false;
            let mut j: usize = 0;
            while j < groups.len()
                invariant
                    j <= groups@.len(),
                    groups@ == key_groups(current),
                    clash <==> exists|h: int| 0 <= h < j && encountered@.contains(groups@[h]),
                decreases groups@.len() - j,
            {
                if contains_key_group(&encountered, groups[j]) {
                    clash = true;
                }
                j = j + 1;
            }
            proof {
                if clash {
                    let h = choose|h: int| 0 <= h < j && encountered@.contains(groups@[h]);
                    assert(key_groups(current).contains(groups@[h]));
                } else {
                    assert forall|g: GameKeyGroup|
                        key_groups(current).contains(g) implies !group_taken(new.stack@, g) by {
                        let h = choose|h: int| 0 <= h < groups@.len() && groups@[h] == g;
                        assert(!encountered@.contains(groups@[h]));
                    }
                }
            }
            if !clash {
                let ghost before = new.stack@;
                let mut k: usize = 0;
                while k < groups.len()
                    invariant
                        k <= groups@.len(),
                        groups@ == key_groups(current),
                        before == new.stack@,
                        forall|g: GameKeyGroup| #[trigger]
                            encountered@.contains(g) <==> (group_taken(before, g) || exists|h: int|
                                0 <= h < k && groups@[h] == g),
                    decreases groups@.len() - k,
                {
                    let ghost prior = encountered@;
                    encountered.push(groups[k]);
                    proof {
                        assert forall|g: GameKeyGroup| #[trigger]
                            encountered@.contains(g) <==> (group_taken(before, g) || exists|h: int|
                                0 <= h < k + 1 && groups@[h] == g) by {
                            if encountered@.contains(g) && !prior.contains(g) {
                                let i = choose|i: int| 0 <= i < encountered@.len() && encountered@[i] == g;
                                if i < prior.len() {
                                    assert(prior[i] == g);
                                }
                                assert(groups@[k as int] == g);
                            }
                            if prior.contains(g) {
                                let i = choose|i: int| 0 <= i < prior.len() && prior[i] == g;
                                assert(encountered@[i] == g);
                            }
                            if exists|h: int| 0 <= h < k + 1 && groups@[h] == g {
                                let h = choose|h: int| 0 <= h < k + 1 && groups@[h] == g;
                                if h == k {
                                    assert(encountered@[prior.len() as int] == g);
                                }
                            }
                        }
                    }
                    k = k + 1;
                }
                new.stack.push(current);
                proof {
                    assert forall|g: GameKeyGroup| #[trigger]
                        encountered@.contains(g) <==> group_taken(new.stack@, g) by {
                        if group_taken(new.stack@, g) {
                            let i = choose|i: int|
                                0 <= i < new.stack@.len() && key_groups(new.stack@[i]).contains(g);
                            if i < before.len() {
                                assert(new.stack@[i] == before[i]);
                            } else {
                                let h = choose|h: int| 0 <= h < groups@.len() && groups@[h] == g;
                            }
                        }
                        if encountered@.contains(g) {
                            if group_taken(before, g) {
                                let i = choose|i: int|
                                    0 <= i < before.len() && key_groups(before[i]).contains(g);
                                assert(new.stack@[i] == before[i]);
                            } else {
                                let h = choose|h: int| 0 <= h < groups@.len() && groups@[h] == g;
                                assert(key_groups(new.stack@[before.len() as int]).contains(g));
                            }
                        }
                    }
                }
            }
            m = m + 1;
        }
        new
    }

    /// Presses `key`: a key already held leaves the stack as it is; otherwise
    /// the key goes on top of the normalized stack.
    pub fn press(&self, key: GameKey) -> (r: KeyStack)
        ensures
            self.stack@.contains(key) ==> r.stack@ == self.stack@,
            !self.stack@.contains(key) ==> r.stack@ == normalized(
                self.stack@,
                self.stack@.len() as int,
            ).push(key),
    {
        if self.is_pressed(key) {
            self.clone_stack()
        } else {
            let mut new = self.normalize();
            new.stack.push(key);
            new
        }
    }

    pub fn clone_stack(&self) -> (r: KeyStack)
        ensures
            r.stack@ == self.stack@,
    {
        let mut stack: Vec<GameKey> = Vec::new();
        let mut i: usize = 0;
        while i < self.stack.len()
            invariant
                i <= self.stack@.len(),
                stack@ == self.stack@.take(i as int),
            decreases self.stack@.len() - i,
        {
            stack.push(self.stack[i]);
            i = i + 1;
            assert(stack@ =~= self.stack@.take(i as int));
        }
        assert(self.stack@.take(i as int) =~= self.stack@);
        KeyStack { stack }
    }

    /// Releases `key`: every occurrence of it leaves the stack; the other
    /// keys keep their order.
    pub fn depress(&self, key: GameKey) -> (r: KeyStack)
        ensures
            r.stack@ == self.stack@.filter(|k: GameKey| k != key),
    {
        let mut stack: Vec<GameKey> = Vec::new();
        let mut i: usize = 0;
        while i < self.stack.len()
            invariant
                i <= self.stack@.len(),
                stack@ == self.stack@.take(i as int).filter(|k: GameKey| k != key),
            decreases self.stack@.len() - i,
        {
            let k = self.stack[i];
            proof {
                let t = self.stack@.take(i as int + 1);
                assert(t.drop_last() =~= self.stack@.take(i as int));
                reveal(Seq::filter);
            }
            if k != key {
                stack.push(k);
            }
            i = i + 1;
        }
        assert(self.stack@.take(i as int) =~= self.stack@);
        KeyStack { stack }
    }

    /// Whether `key` counts: it is held and no newer key of its group is.
    pub fn is_normalized_pressed(&self, key: GameKey) -> (r: bool)
        ensures
            r == normalized(self.stack@, self.stack@.len() as int).contains(key),
    {
        contains_key(&self.normalize().stack, key)
    }

    /// Whether `key` is held.
    pub fn is_pressed(&self, key: GameKey) -> (r: bool)
        ensures
            r == self.stack@.contains(key),
    {
        contains_key(&self.stack, key)
    }
}

fn contains_key_group(groups: &Vec<GameKeyGroup>, g: GameKeyGroup) -> (r: bool)
    ensures
        r == groups@.contains(g),
{
    let mut i: usize = 0;
    while i < groups.len()
        invariant
            i <= groups@.len(),
            forall|j: int| 0 <= j < i ==> groups@[j] != g,
        decreases groups@.len() - i,
    {
        if groups[i] == g {
            return true;
        }
        i = i + 1;
    }
    false
}

} // verus!
