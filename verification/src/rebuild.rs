//! The rebuild trigger's verifiable core: parsing the configured rebuild
//! arguments (a free-form string split on spaces), the argument list handed
//! to the external documentation builder, and the trigger's two-state life
//! cycle. Listening for signals and spawning the build process are I/O and
//! stay outside this crate.

use vstd::prelude::*;

verus! {

/// One step of splitting on spaces: `cur` is the token gathered so far,
/// `rest` is what is left to read.
pub open spec fn split_from(cur: Seq<char>, rest: Seq<char>) -> Seq<Seq<char>>
    decreases rest.len(),
{
    if rest.len() == 0 {
        if cur.len() == 0 {
            Seq::empty()
        } else {
            seq![cur]
        }
    } else if rest[0] == ' ' {
        if cur.len() == 0 {
            split_from(Seq::empty(), rest.skip(1))
        } else {
            seq![cur] + split_from(Seq::empty(), rest.skip(1))
        }
    } else {
        split_from(cur.push(rest[0]), rest.skip(1))
    }
}

/// The argument tokens of `s`: its maximal runs of non-space characters, in
/// order. Runs of spaces produce no empty tokens.
pub open spec fn space_split(s: Seq<char>) -> Seq<Seq<char>> {
    split_from(Seq::empty(), s)
}

/// Split a free-form argument string on spaces.
pub fn split_args(input: &str) -> (r: Vec<String>)
    ensures
        r.deep_view() == space_split(input@),
{
    let len: usize = input.unicode_len();
    let mut out: Vec<String> = Vec::new();
    let mut cur = String::new();
    let mut i: usize = 0;
    proof {
        assert(input@.skip(0) =~= input@);
        assert(out.deep_view() + split_from(cur@, input@) =~= split_from(cur@, input@));
    }
    while i < len
        invariant
            i <= len,
            len == input@.len(),
            out.deep_view() + split_from(cur@, input@.skip(i as int)) == space_split(input@),
        decreases len - i,
    {
        let ghost prev_out = out.deep_view();
        let ghost prev_cur = cur@;
        let ghost rest = input@.skip(i as int);
        proof {
            assert(rest[0] == input@[i as int]);
            assert(rest.skip(1) =~= input@.skip(i as int + 1));
        }
        let c = input.get_char(i);
        if c == ' ' {
            if !cur.as_str().is_empty() {
                out.push(cur);
                cur = String::new();
                proof {
                    assert(split_from(prev_cur, rest) == seq![prev_cur] + split_from(
                        Seq::empty(),
                        rest.skip(1),
                    ));
                    assert(out.deep_view() =~= prev_out.push(prev_cur));
                    assert(prev_out.push(prev_cur) + split_from(Seq::empty(), rest.skip(1))
                        =~= prev_out + split_from(prev_cur, rest));
                    assert(out.deep_view() + split_from(cur@, input@.skip(i as int + 1))
                        == space_split(input@));
                }
            } else {
                proof {
                    assert(cur@ =~= Seq::<char>::empty());
                    assert(split_from(cur@, rest) == split_from(Seq::empty(), rest.skip(1)));
                    assert(out.deep_view() + split_from(cur@, input@.skip(i as int + 1))
                        == space_split(input@));
                }
            }
        } else {
            let ghost prev_split = split_from(prev_cur, rest);
            proof {
                assert(prev_split == split_from(prev_cur.push(rest[0]), rest.skip(1)));
            }
            let piece = input.substring_char(i, i + 1);
            cur.append(piece);
            proof {
                assert(piece@ =~= seq![input@[i as int]]);
                assert(cur@ =~= prev_cur.push(rest[0]));
                assert(out.deep_view() + split_from(cur@, input@.skip(i as int + 1))
                    == space_split(input@));
            }
        }
        i = i + 1;
    }
    proof {
        assert(input@.skip(len as int) =~= Seq::<char>::empty());
    }
    if !cur.as_str().is_empty() {
        let ghost prev_out = out.deep_view();
        let ghost prev_cur = cur@;
        proof {
            assert(split_from(prev_cur, input@.skip(len as int)) == seq![prev_cur]);
        }
        out.push(cur);
        proof {
            assert(out.deep_view() =~= prev_out.push(prev_cur));
            assert(prev_out.push(prev_cur) =~= prev_out + seq![prev_cur]);
        }
    } else {
        proof {
            assert(split_from(cur@, input@.skip(len as int)) =~= Seq::<Seq<char>>::empty());
            assert(out.deep_view() + Seq::<Seq<char>>::empty() =~= out.deep_view());
        }
    }
    out
}

/// The configured rebuild command: the argument tokens that follow the fixed
/// base command of the external documentation builder.
#[derive(Clone, Debug)]
pub struct RebuildCommand {
    pub args: Vec<String>,
}

impl RebuildCommand {
    /// Parse the free-form recompile-arguments string: split it on spaces.
    pub fn parse(recompile_args: &str) -> (r: RebuildCommand)
        ensures
            r.args.deep_view() == space_split(recompile_args@),
    {
        RebuildCommand { args: split_args(recompile_args) }
    }

    /// The full argument list handed to the external build tool: the fixed
    /// "doc" subcommand, then the configured tokens in order.
    pub fn argv(&self) -> (r: Vec<String>)
        ensures
            r.deep_view() == seq!["doc"@] + self.args.deep_view(),
    {
        let mut r: Vec<String> = Vec::new();
        r.push("doc".to_owned());
        proof {
            assert(r.deep_view() =~= seq!["doc"@] + self.args.deep_view().take(0));
        }
        let mut i: usize = 0;
        while i < self.args.len()
            invariant
                i <= self.args.len(),
                r.deep_view() == seq!["doc"@] + self.args.deep_view().take(i as int),
            decreases self.args.len() - i,
        {
            let ghost prev = r.deep_view();
            r.push(self.args[i].clone());
            proof {
                assert(r.deep_view() =~= prev.push(self.args@[i as int]@));
                assert(prev.push(self.args@[i as int]@) =~= seq!["doc"@]
                    + self.args.deep_view().take(i as int + 1));
            }
            i = i + 1;
        }
        proof {
            assert(self.args.deep_view().take(self.args@.len() as int) =~= self.args.deep_view());
        }
        r
    }
}

/// The rebuild trigger's state: waiting for a signal, or running a build.
#[derive(Clone, Copy, PartialEq, Eq, Structural, Debug)]
pub enum TriggerState {
    Idle,
    Building,
}

impl TriggerState {
    /// A rebuild signal arrived. A build is started only from Idle; a signal
    /// that arrives while a build runs is dropped, since the signal stream is
    /// consumed strictly sequentially and no build may overlap another.
    pub fn on_signal(self) -> (r: (TriggerState, bool))
        ensures
            r.0 is Building,
            r.1 <==> self is Idle,
    {
        match self {
            TriggerState::Idle => (TriggerState::Building, true),
            TriggerState::Building => (TriggerState::Building, false),
        }
    }

    /// The running build finished, with whatever exit code: back to Idle.
    pub fn on_build_finished(self) -> (r: TriggerState)
        ensures
            r is Idle,
    {
        TriggerState::Idle
    }
}

} // verus!
