//! What is handed to the operating system to run an external command: the
//! program, its argument vector and the directory it starts in.

use crate::command::{Command, CommandView};
use crate::error::{LaunchError, LaunchErrorView};
use vstd::prelude::*;

verus! {

/// Whether `s` can be handed to the operating system as a string: it holds no
/// NUL character.
pub open spec fn encodable(s: Seq<char>) -> bool {
    forall|i: int| 0 <= i < s.len() ==> #[trigger] s[i] != '\0'
}

/// Whether every text of `v` is [`encodable`].
pub open spec fn all_encodable(v: Seq<Seq<char>>) -> bool {
    forall|k: int| 0 <= k < v.len() ==> encodable(#[trigger] v[k])
}

/// The argument vector of a command: its name, then its arguments.
pub open spec fn argument_vector(c: CommandView) -> Seq<Seq<char>> {
    seq![c.name] + c.args
}

/// An external command made ready for launching.
#[derive(Debug, PartialEq, Eq)]
pub struct LaunchPlan {
    /// The program that replaces the child's image.
    pub program: String,
    /// The argument vector: the program's name, then the arguments.
    pub argv: Vec<String>,
    /// The directory that the child enters before the program starts.
    pub workdir: String,
}

/// A [`LaunchPlan`] as plain values.
pub struct LaunchPlanView {
    pub program: Seq<char>,
    pub argv: Seq<Seq<char>>,
    pub workdir: Seq<char>,
}

impl View for LaunchPlan {
    type V = LaunchPlanView;

    open spec fn view(&self) -> LaunchPlanView {
        LaunchPlanView {
            program: self.program@,
            argv: self.argv.deep_view(),
            workdir: self.workdir@,
        }
    }
}

impl LaunchPlanView {
    /// A plan is sound when the argument vector begins with the program's
    /// name and every text in it can be handed to the operating system.
    pub open spec fn wf(self) -> bool {
        &&& self.argv.len() >= 1
        &&& self.argv[0] == self.program
        &&& all_encodable(self.argv)
    }
}

/// The plan for running the command `c` in the directory `workdir`, or the
/// reason why there is none: the name or an argument holds a NUL character.
pub open spec fn launch_plan(c: CommandView, workdir: Seq<char>) -> Result<
    LaunchPlanView,
    LaunchErrorView,
> {
    if encodable(c.name) && all_encodable(c.args) {
        Ok(LaunchPlanView { program: c.name, argv: argument_vector(c), workdir })
    } else {
        Err(LaunchErrorView::Encoding)
    }
}

/// Tells whether `s` holds no NUL character.
pub fn is_encodable(s: &str) -> (r: bool)
    ensures
        r == encodable(s@),
{
    let mut ok = true;
    for c in it: s.chars()
        invariant
            it.seq() == s@,
            ok == encodable(s@.take(it.index() as int)),
    {
        let ghost i = it.index() as int;
        proof {
            let before = s@.take(i);
            let after = s@.take(i + 1);
            assert(after[i] == c);
            if c != '\0' && encodable(before) {
                assert forall|j: int| 0 <= j < after.len() implies #[trigger] after[j] != '\0' by {
                    if j < i {
                        assert(after[j] == before[j]);
                    }
                }
            }
            if encodable(after) {
                assert forall|j: int| 0 <= j < before.len() implies #[trigger] before[j]
                    != '\0' by {
                    assert(before[j] == after[j]);
                }
            }
        }
        ok = ok && c != '\0';
    }
    assert(s@.take(s@.len() as int) =~= s@);
    ok
}

impl Command {
    /// Makes the command ready for launching in the directory `workdir`: the
    /// program is the command's name and the argument vector is the name
    /// followed by the arguments. Fails when the name or an argument holds a
    /// NUL character.
    pub fn execute_external(&self, workdir: &str) -> (r: Result<LaunchPlan, LaunchError>)
        ensures
            match r {
                Ok(plan) => launch_plan(self@, workdir@) == Ok::<LaunchPlanView, LaunchErrorView>(
                    plan@,
                ) && plan@.wf(),
                Err(e) => launch_plan(self@, workdir@) == Err::<LaunchPlanView, LaunchErrorView>(
                    e@,
                ),
            },
    {
        if !is_encodable(self.name.as_str()) {
            return Err(LaunchError::Encoding);
        }
        let mut argv: Vec<String> = Vec::new();
        argv.push(self.name.clone());
        let n = self.args.len();
        let mut i: usize = 0;
        assert(argv.deep_view() =~= seq![self@.name] + self@.args.take(0));
        while i < n
            invariant
                n == self.args.len(),
                i <= n,
                encodable(self@.name),
                argv.deep_view() == seq![self@.name] + self@.args.take(i as int),
                all_encodable(self@.args.take(i as int)),
            decreases n - i,
        {
            if !is_encodable(self.args[i].as_str()) {
                assert(!encodable(self@.args[i as int]));
                return Err(LaunchError::Encoding);
            }
            let ghost before = argv.deep_view();
            argv.push(self.args[i].clone());
            proof {
                assert(argv.deep_view() =~= before.push(self@.args[i as int]));
                assert(self@.args.take(i + 1) =~= self@.args.take(i as int).push(
                    self@.args[i as int],
                ));
                assert(argv.deep_view() =~= seq![self@.name] + self@.args.take(i + 1));
                assert forall|k: int| 0 <= k < i + 1 implies encodable(
                    #[trigger] self@.args.take(i + 1)[k],
                ) by {
                    if k < i {
                        assert(self@.args.take(i + 1)[k] == self@.args.take(i as int)[k]);
                    }
                }
            }
            i += 1;
        }
        proof {
            assert(self@.args.take(n as int) =~= self@.args);
            assert forall|k: int| 0 <= k < argv.deep_view().len() implies encodable(
                #[trigger] argv.deep_view()[k],
            ) by {
                if k > 0 {
                    assert(argv.deep_view()[k] == self@.args[k - 1]);
                }
            }
        }
        Ok(LaunchPlan { program: self.name.clone(), argv, workdir: workdir.to_owned() })
    }
}

} // verus!
