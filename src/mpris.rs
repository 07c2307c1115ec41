//! How players are told apart on the bus: by the prefix of their bus names,
//! and by the owner changes that announce their arrival and departure.

use vstd::prelude::*;
use vstd::string::*;

verus! {

/// The prefix that the bus name of every media player starts with.
pub open spec fn player_prefix() -> Seq<char> {
    seq!['o', 'r', 'g', '.', 'm', 'p', 'r', 'i', 's', '.', 'M', 'e', 'd', 'i', 'a', 'P', 'l', 'a', 'y', 'e', 'r', '2']
}

/// Whether `name` starts with `prefix`.
pub open spec fn has_prefix(name: Seq<char>, prefix: Seq<char>) -> bool {
    name.len() >= prefix.len() && name.subrange(0, prefix.len() as int) == prefix
}

/// Whether `name` starts with `prefix`.
pub fn starts_with(name: &str, prefix: &str) -> (r: bool)
    ensures
        r == has_prefix(name@, prefix@),
{
    let n: usize = name.unicode_len();
    let m: usize = prefix.unicode_len();
    if n < m {
        return false;
    }
    let mut i: usize = 0;
    while i < m
        invariant
            n == name@.len(),
            m == prefix@.len(),
            m <= n,
            i <= m,
            forall|j: int| 0 <= j < i ==> name@[j] == prefix@[j],
        decreases m - i,
    {
        if name.get_char(i) != prefix.get_char(i) {
            assert(name@.subrange(0, m as int)[i as int] != prefix@[i as int]);
            return false;
        }
        i = i + 1;
    }
    assert(name@.subrange(0, m as int) =~= prefix@);
    true
}

/// Whether `name` is the bus name of a media player.
pub fn is_player_name(name: &str) -> (r: bool)
    ensures
        r == has_prefix(name@, player_prefix()),
{
    proof {
        reveal_strlit("org.mpris.MediaPlayer2");
    }
    let prefix = "org.mpris.MediaPlayer2";
    assert(prefix@ =~= player_prefix());
    starts_with(name, prefix)
}

/// What a change of owner of a bus name means to a watcher of players.
#[derive(Debug, Clone, Copy, PartialEq, Eq, Structural)]
pub enum OwnerChange {
    /// A player arrived: the name had no owner and now has one.
    Appeared,
    /// A player left: the name had an owner and now has none.
    Left,
    /// Not a player's name, or a hand-over between owners.
    Ignored,
}

/// What the owner change of `name` means: `had_owner` and `has_owner` tell
/// whether the name had an owner before and after the change.
pub fn classify_owner_change(name: &str, had_owner: bool, has_owner: bool) -> (r: OwnerChange)
    ensures
        r == if !has_prefix(name@, player_prefix()) {
            OwnerChange::Ignored
        } else if !had_owner && has_owner {
            OwnerChange::Appeared
        } else if had_owner && !has_owner {
            OwnerChange::Left
        } else {
            OwnerChange::Ignored
        },
{
    if !is_player_name(name) {
        OwnerChange::Ignored
    } else if !had_owner && has_owner {
        OwnerChange::Appeared
    } else if had_owner && !has_owner {
        OwnerChange::Left
    } else {
        OwnerChange::Ignored
    }
}

/// Whether the bus name `n` is a media player's.
pub open spec fn is_player(n: Seq<char>) -> bool {
    has_prefix(n, player_prefix())
}

/// The names of media players among the bus names `names`, in their order.
pub fn player_names(names: &Vec<String>) -> (r: Vec<String>)
    ensures
        r.deep_view() == names.deep_view().filter(|n: Seq<char>| is_player(n)),
{
    let mut r: Vec<String> = Vec::new();
    let mut i: usize = 0;
    while i < names.len()
        invariant
            i <= names.len(),
            r.deep_view() == names.deep_view().take(i as int).filter(|n: Seq<char>| is_player(n)),
        decreases names.len() - i,
    {
        let ghost before = names.deep_view().take(i as int);
        let ghost after = names.deep_view().take(i as int + 1);
        proof {
            assert(after.drop_last() =~= before);
            assert(after.last() == names[i as int]@);
            reveal(Seq::filter);
            assert(after.filter(|n: Seq<char>| is_player(n)) == (if is_player(after.last()) {
                before.filter(|n: Seq<char>| is_player(n)).push(after.last())
            } else {
                before.filter(|n: Seq<char>| is_player(n))
            }));
        }
        let name_str = names[i].as_str();
        let keep = is_player_name(name_str);
        if keep {
            let ghost r0 = r.deep_view();
            let name = names[i].clone();
            r.push(name);
            assert(r.deep_view() =~= r0.push(names[i as int]@));
        }
        i = i + 1;
    }
    assert(names.deep_view().take(names.len() as int) =~= names.deep_view());
    r
}

} // verus!
