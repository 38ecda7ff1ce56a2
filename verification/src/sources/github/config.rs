//! What the configuration of Nix says of GitHub.

use vstd::prelude::*;

verus! {

/// The tokens of some entries, by host. A later entry for a host takes the place of an earlier one.
pub open spec fn collected(entries: Seq<(String, String)>) -> Map<Seq<char>, String>
    decreases entries.len(),
{
    if entries.len() == 0 {
        Map::empty()
    } else {
        collected(entries.drop_last()).insert(entries.last().0@, entries.last().1)
    }
}

/// Whether no host has two entries.
spec fn no_host_twice(entries: Seq<(String, String)>) -> bool {
    forall|i: int, j: int|
        0 <= i < j < entries.len() ==> (#[trigger] entries[i]).0@ != (#[trigger] entries[j]).0@
}

/// What is collected are the entries, where no host has two.
proof fn lemma_collected(entries: Seq<(String, String)>)
    requires
        no_host_twice(entries),
    ensures
        forall|i: int|
            0 <= i < entries.len() ==> collected(entries).contains_pair(
                (#[trigger] entries[i]).0@,
                entries[i].1,
            ),
        forall|host: Seq<char>| #[trigger]
            collected(entries).contains_key(host) ==> exists|i: int|
                0 <= i < entries.len() && (#[trigger] entries[i]).0@ == host,
    decreases entries.len(),
{
    if entries.len() > 0 {
        let before = entries.drop_last();
        lemma_collected(before);
        assert forall|i: int| 0 <= i < entries.len() implies collected(entries).contains_pair(
            (#[trigger] entries[i]).0@,
            entries[i].1,
        ) by {
            if i < before.len() {
                assert(before[i] == entries[i]);
            }
        }
        assert forall|host: Seq<char>| #[trigger]
            collected(entries).contains_key(host) implies exists|i: int|
            0 <= i < entries.len() && (#[trigger] entries[i]).0@ == host by {
            if host == entries.last().0@ {
                assert(entries[entries.len() - 1].0@ == host);
            } else {
                assert(collected(before).contains_key(host));
                let i = choose|i: int| 0 <= i < before.len() && (#[trigger] before[i]).0@ == host;
                assert(entries[i].0@ == host);
            }
        }
    }
}

/// The place of the entry for a host.
fn position(entries: &Vec<(String, String)>, host: &String) -> (place: Option<usize>)
    requires
        no_host_twice(entries@),
    ensures
        match place {
            Some(i) => i < entries@.len() && entries@[i as int].0@ == host@,
            None => !collected(entries@).contains_key(host@),
        },
{
    let mut i: usize = 0;
    while i < entries.len()
        invariant
            i <= entries.len(),
            forall|j: int| 0 <= j < i ==> (#[trigger] entries@[j]).0@ != host@,
        decreases entries.len() - i,
    {
        if entries[i].0 == *host {
            return Some(i);
        }
        i += 1;
    }
    proof {
        lemma_collected(entries@);
    }
    None
}

/// The tokens that grant access to hosts, one for each host that has any.
pub struct AccessTokens {
    value: Vec<(String, String)>,
}

impl View for AccessTokens {
    type V = Map<Seq<char>, String>;

    closed spec fn view(&self) -> Map<Seq<char>, String> {
        collected(self.value@)
    }
}

impl AccessTokens {
    #[verifier::type_invariant]
    spec fn well_formed(self) -> bool {
        no_host_twice(self.value@)
    }

    /// Collects hosts with their tokens.
    pub fn new(entries: Vec<(String, String)>) -> (tokens: AccessTokens)
        ensures
            tokens@ == collected(entries@),
    {
        let mut value: Vec<(String, String)> = Vec::new();
        let mut i: usize = 0;
        assert(entries@.take(0) =~= Seq::empty());
        while i < entries.len()
            invariant
                i <= entries.len(),
                no_host_twice(value@),
                collected(value@) == collected(entries@.take(i as int)),
            decreases entries.len() - i,
        {
            let ghost before = value@;
            let host: String = entries[i].0.clone();
            let token: String = entries[i].1.clone();
            proof {
                let upto = entries@.take(i + 1);
                assert(upto.drop_last() =~= entries@.take(i as int));
                assert(upto.last() == entries@[i as int]);
                lemma_collected(before);
            }
            match position(&value, &host) {
                Some(place) => {
                    value.set(place, (host, token));
                    proof {
                        lemma_same_hosts(before, value@, place as int);
                    }
                },
                None => {
                    value.push((host, token));
                    assert(value@.drop_last() =~= before);
                    assert forall|j: int, k: int| 0 <= j < k < value@.len() implies (
                    #[trigger] value@[j]).0@ != (#[trigger] value@[k]).0@ by {
                        assert(before[j] == value@[j]);
                        assert(collected(before).contains_pair(before[j].0@, before[j].1));
                    }
                },
            }
            i += 1;
        }
        assert(entries@.take(i as int) =~= entries@);
        AccessTokens { value }
    }

    /// The token for a host.
    pub fn get(&self, host: &String) -> (token: Option<&String>)
        ensures
            match token {
                Some(token) => self@.contains_pair(host@, *token),
                None => !self@.contains_key(host@),
            },
    {
        proof {
            use_type_invariant(self);
            lemma_collected(self.value@);
        }
        match position(&self.value, host) {
            Some(i) => Some(&self.value[i].1),
            None => None,
        }
    }
}

/// Where only the token of one entry differs, only the token of its host does.
proof fn lemma_same_hosts(before: Seq<(String, String)>, after: Seq<(String, String)>, place: int)
    requires
        no_host_twice(before),
        0 <= place < before.len(),
        after == before.update(place, after[place]),
        after[place].0@ == before[place].0@,
    ensures
        no_host_twice(after),
        collected(after) == collected(before).insert(after[place].0@, after[place].1),
{
    assert forall|i: int, j: int| 0 <= i < j < after.len() implies (#[trigger] after[i]).0@ != (
    #[trigger] after[j]).0@ by {
        assert(before[i].0@ != before[j].0@);
    }
    lemma_collected(before);
    lemma_collected(after);
    let wanted = collected(before).insert(after[place].0@, after[place].1);
    assert forall|host: Seq<char>| collected(after).contains_key(host) implies
        wanted.contains_pair(host, collected(after)[host]) by {
        let i = choose|i: int| 0 <= i < after.len() && (#[trigger] after[i]).0@ == host;
        assert(collected(after).contains_pair(after[i].0@, after[i].1));
        assert(before[i].0@ == host);
        assert(collected(before).contains_pair(before[i].0@, before[i].1));
    }
    assert forall|host: Seq<char>| wanted.contains_key(host) implies #[trigger] collected(
        after,
    ).contains_key(host) by {
        if host != after[place].0@ {
            let i = choose|i: int| 0 <= i < before.len() && (#[trigger] before[i]).0@ == host;
            assert(after[i].0@ == host);
        } else {
            assert(collected(after).contains_pair(after[place].0@, after[place].1));
        }
    }
    assert(collected(after) =~= wanted);
}

/// The configuration of Nix.
pub struct NixConfig {
    /// The tokens that grant access to hosts.
    pub access_tokens: AccessTokens,
}

impl NixConfig {
    /// The token that grants access to GitHub.
    pub fn github_token(&self) -> (token: Option<&String>)
        ensures
            match token {
                Some(token) => self.access_tokens@.contains_pair("github.com"@, *token),
                None => !self.access_tokens@.contains_key("github.com"@),
            },
    {
        self.access_tokens.get(&"github.com".to_owned())
    }
}

} // verus!
