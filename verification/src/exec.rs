//! The Command Execution Abstraction: one external invocation described
//! as a plain value, with elevation wrapping, a simulated run mode, and a
//! per-call tolerance list of exit codes accepted as success.
//!
//! Nothing here spawns a process. A procedure builds
//! [`ExecutionRequest`] values; the caller carries them out (or, in
//! simulated mode, only reports them) and feeds each exit code back into
//! [`step_outcome`].

use vstd::prelude::*;

use crate::text::{lemma_views_of_concat, lemma_views_of_push, split_ws, tokens, views_of};
use crate::TopgradeError;

verus! {

/// Live or simulated execution.
#[derive(Copy, Clone, Debug, PartialEq, Eq, Structural)]
pub enum RunType {
    /// Execute external processes for real.
    Wet,
    /// Only report what would run; touch nothing.
    Dry,
}

impl RunType {
    /// Whether this is the simulated mode.
    pub fn dry(self) -> (r: bool)
        ensures
            r == (self == RunType::Dry),
    {
        matches!(self, RunType::Dry)
    }
}

/// Mathematical view of an [`ExecutionRequest`].
#[verifier::ext_equal]
pub struct CmdView {
    pub program: Seq<char>,
    pub args: Seq<Seq<char>>,
    pub env_set: Seq<(Seq<char>, Seq<char>)>,
    pub env_remove: Seq<Seq<char>>,
    pub ok_codes: Seq<i32>,
    pub capture: bool,
}

/// The view of a command with this program and these arguments, no
/// environment changes, no extra accepted exit codes, output not
/// captured.
pub open spec fn cmd(program: Seq<char>, args: Seq<Seq<char>>) -> CmdView {
    CmdView {
        program,
        args,
        env_set: Seq::empty(),
        env_remove: Seq::empty(),
        ok_codes: Seq::empty(),
        capture: false,
    }
}

/// The views of the environment overlay pairs.
pub open spec fn env_views_of(v: Seq<(String, String)>) -> Seq<(Seq<char>, Seq<char>)> {
    v.map_values(|p: (String, String)| (p.0@, p.1@))
}

/// One external invocation: program, ordered arguments, environment
/// overlay, variables to drop from the inherited environment, extra exit
/// codes accepted as success beyond zero, and whether output is captured
/// for inspection rather than shown.
#[derive(Debug)]
pub struct ExecutionRequest {
    pub program: String,
    pub args: Vec<String>,
    pub env_set: Vec<(String, String)>,
    pub env_remove: Vec<String>,
    pub ok_codes: Vec<i32>,
    pub capture: bool,
}

impl View for ExecutionRequest {
    type V = CmdView;

    open spec fn view(&self) -> CmdView {
        CmdView {
            program: self.program@,
            args: views_of(self.args@),
            env_set: env_views_of(self.env_set@),
            env_remove: views_of(self.env_remove@),
            ok_codes: self.ok_codes@,
            capture: self.capture,
        }
    }
}

/// The views of a sequence of requests: the procedure a plan stands for.
pub open spec fn cmd_views(p: Seq<ExecutionRequest>) -> Seq<CmdView> {
    p.map_values(|r: ExecutionRequest| r@)
}

impl ExecutionRequest {
    /// A fresh request for `program` with no arguments.
    pub fn new(program: &str) -> (r: ExecutionRequest)
        ensures
            r@ == cmd(program@, Seq::<Seq<char>>::empty()),
    {
        let r = ExecutionRequest {
            program: program.to_owned(),
            args: Vec::new(),
            env_set: Vec::new(),
            env_remove: Vec::new(),
            ok_codes: Vec::new(),
            capture: false,
        };
        proof {
            assert(r@ =~~= cmd(program@, Seq::<Seq<char>>::empty()));
        }
        r
    }

    /// A fresh request whose program name is already owned.
    pub fn new_string(program: &String) -> (r: ExecutionRequest)
        ensures
            r@ == cmd(program@, Seq::<Seq<char>>::empty()),
    {
        Self::new(program.as_str())
    }

    /// Appends one argument.
    pub fn arg(&mut self, a: &str)
        ensures
            final(self)@ == (CmdView { args: old(self)@.args.push(a@), ..old(self)@ }),
    {
        let owned = a.to_owned();
        proof {
            lemma_views_of_push(self.args@, owned);
        }
        self.args.push(owned);
        proof {
            assert(self@ =~~= (CmdView { args: old(self)@.args.push(a@), ..old(self)@ }));
        }
    }

    /// Appends one argument taken from an owned string.
    pub fn arg_string(&mut self, a: &String)
        ensures
            final(self)@ == (CmdView { args: old(self)@.args.push(a@), ..old(self)@ }),
    {
        self.arg(a.as_str());
    }

    /// Appends the whitespace-separated tokens of `s`, in order: the
    /// shape free-form extra-argument strings are handed over in.
    pub fn args_split(&mut self, s: &str)
        ensures
            final(self)@ == (CmdView { args: old(self)@.args + tokens(s@), ..old(self)@ }),
    {
        let mut extra = split_ws(s);
        proof {
            lemma_views_of_concat(self.args@, extra@);
        }
        self.args.append(&mut extra);
        proof {
            assert(self@ =~~= (CmdView { args: old(self)@.args + tokens(s@), ..old(self)@ }));
        }
    }

    /// Appends every string of `list` as one argument, in order.
    pub fn args_list(&mut self, list: &Vec<String>)
        ensures
            final(self)@ == (CmdView {
                args: old(self)@.args + views_of(list@),
                ..old(self)@
            }),
    {
        let ghost orig = self@;
        let mut k: usize = 0;
        while k < list.len()
            invariant
                k <= list.len(),
                self@ == (CmdView {
                    args: orig.args + views_of(list@.subrange(0, k as int)),
                    ..orig
                }),
            decreases list.len() - k,
        {
            let ghost before = self@;
            self.arg(list[k].as_str());
            proof {
                assert(list@.subrange(0, k + 1) =~= list@.subrange(0, k as int).push(
                    list@[k as int],
                ));
                lemma_views_of_push(list@.subrange(0, k as int), list@[k as int]);
                assert(orig.args + views_of(list@.subrange(0, k + 1)) =~= before.args.push(
                    list@[k as int]@,
                ));
                assert(self@ =~~= (CmdView {
                    args: orig.args + views_of(list@.subrange(0, k + 1)),
                    ..orig
                }));
            }
            k += 1;
        }
        proof {
            assert(list@.subrange(0, list@.len() as int) =~= list@);
            assert(self@ =~~= (CmdView { args: orig.args + views_of(list@), ..orig }));
        }
    }

    /// Accepts `code` as success for this invocation, beyond zero.
    pub fn ok_code(&mut self, code: i32)
        ensures
            final(self)@ == (CmdView { ok_codes: old(self)@.ok_codes.push(code), ..old(self)@ }),
    {
        self.ok_codes.push(code);
        proof {
            assert(self@ =~~= (CmdView {
                ok_codes: old(self)@.ok_codes.push(code),
                ..old(self)@
            }));
        }
    }

    /// Sets one environment variable for this invocation only.
    pub fn env(&mut self, key: &str, value: &str)
        ensures
            final(self)@ == (CmdView {
                env_set: old(self)@.env_set.push((key@, value@)),
                ..old(self)@
            }),
    {
        self.env_set.push((key.to_owned(), value.to_owned()));
        proof {
            assert(self@ =~~= (CmdView {
                env_set: old(self)@.env_set.push((key@, value@)),
                ..old(self)@
            }));
        }
    }

    /// Drops one variable from the inherited environment.
    pub fn remove_env(&mut self, key: &str)
        ensures
            final(self)@ == (CmdView {
                env_remove: old(self)@.env_remove.push(key@),
                ..old(self)@
            }),
    {
        let owned = key.to_owned();
        proof {
            lemma_views_of_push(self.env_remove@, owned);
        }
        self.env_remove.push(owned);
        proof {
            assert(self@ =~~= (CmdView {
                env_remove: old(self)@.env_remove.push(key@),
                ..old(self)@
            }));
        }
    }

    /// Marks the output of this invocation as captured for inspection.
    pub fn capture_output(&mut self)
        ensures
            final(self)@ == (CmdView { capture: true, ..old(self)@ }),
    {
        self.capture = true;
        proof {
            assert(self@ =~~= (CmdView { capture: true, ..old(self)@ }));
        }
    }
}

/// Re-targets a request through the elevation command: the elevation
/// tool becomes the program and the original program plus its arguments
/// become the arguments; everything else is kept.
pub fn elevate(sudo: &String, req: ExecutionRequest) -> (r: ExecutionRequest)
    ensures
        r@ == (CmdView {
            program: sudo@,
            args: seq![req@.program] + req@.args,
            ..req@
        }),
{
    let ghost reqv = req@;
    let mut args: Vec<String> = Vec::new();
    proof {
        lemma_views_of_push(args@, req.program);
    }
    let mut rest = req.args;
    args.push(req.program);
    proof {
        lemma_views_of_concat(args@, rest@);
    }
    args.append(&mut rest);
    let r = ExecutionRequest {
        program: sudo.clone(),
        args,
        env_set: req.env_set,
        env_remove: req.env_remove,
        ok_codes: req.ok_codes,
        capture: req.capture,
    };
    proof {
        assert(r@ =~~= (CmdView { program: sudo@, args: seq![reqv.program] + reqv.args, ..reqv }));
    }
    r
}

/// Whether `code` counts as success for an invocation whose extra
/// accepted codes are `extra`: zero always does, and every code in the
/// accepted set does even when nonzero.
pub open spec fn accepts_code(extra: Seq<i32>, code: i32) -> bool {
    code == 0 || extra.contains(code)
}

/// Whether the exit code of a finished invocation counts as success for
/// this request.
pub fn exit_status_ok(req: &ExecutionRequest, code: i32) -> (r: bool)
    ensures
        r == accepts_code(req@.ok_codes, code),
{
    if code == 0 {
        return true;
    }
    let mut k: usize = 0;
    while k < req.ok_codes.len()
        invariant
            k <= req.ok_codes.len(),
            forall|m: int| 0 <= m < k ==> req.ok_codes@[m] != code,
        decreases req.ok_codes.len() - k,
    {
        if req.ok_codes[k] == code {
            return true;
        }
        k += 1;
    }
    false
}

/// Interprets one step of a procedure after the caller carried it out.
///
/// In simulated mode nothing ran, so the step reports success
/// unconditionally; in live mode the exit code the caller observed is
/// success exactly when the request's accepted set says so, and any
/// other code is the failure that aborts the procedure.
pub fn step_outcome(run_type: RunType, req: &ExecutionRequest, exit: Option<i32>) -> (r: Result<
    (),
    TopgradeError,
>)
    requires
        run_type == RunType::Wet ==> exit is Some,
    ensures
        run_type == RunType::Dry ==> r is Ok,
        run_type == RunType::Wet ==> (r is Ok <==> accepts_code(req@.ok_codes, exit.unwrap())),
        r is Err ==> run_type == RunType::Wet && r == Err::<(), TopgradeError>(
            TopgradeError::ExitCode(exit.unwrap()),
        ),
{
    match run_type {
        RunType::Dry => Ok(()),
        RunType::Wet => {
            let code = match exit {
                Some(c) => c,
                None => {
                    proof {
                        assert(false);
                    }
                    0
                },
            };
            if exit_status_ok(req, code) {
                Ok(())
            } else {
                Err(TopgradeError::ExitCode(code))
            }
        },
    }
}

} // verus!
