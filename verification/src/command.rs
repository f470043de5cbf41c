//! Assembly of the pipeline's command sequence.
//!
//! When the version tag is absent from the registry, the orchestrator
//! runs four external commands in strict order: registry login, image
//! build, tag, push.  Each is a shell command line; this module builds
//! the lines and pins their exact contents down, character by character.

use vstd::prelude::*;
use vstd::string::StringExecFns;

use crate::request::BuildRequest;
use crate::text::{
    lemma_occurs_in_prefix, lemma_occurs_in_self, lemma_occurs_in_suffix, occurs_at,
};

verus! {

/// A single external command invocation: a program path plus an ordered
/// argument list.
#[derive(Debug)]
pub struct CommandStep {
    pub program: String,
    pub args: Vec<String>,
}

impl View for CommandStep {
    type V = (Seq<char>, Seq<Seq<char>>);

    open spec fn view(&self) -> (Seq<char>, Seq<Seq<char>>) {
        (self.program@, self.args.deep_view())
    }
}

impl CommandStep {
    /// The step hands `line` to the shell.  Running lines through the
    /// shell is what lets the login step contain a pipeline.
    pub open spec fn wraps(self, line: Seq<char>) -> bool {
        &&& self.program@ == "/bin/sh"@
        &&& self.args.deep_view() == seq!["-c"@, line]
    }

    /// Wraps one command line in a shell invocation.
    pub fn shell_step(line: String) -> (r: CommandStep)
        ensures
            r.wraps(line@),
    {
        let ghost l = line@;
        let mut args: Vec<String> = Vec::new();
        args.push("-c".to_owned());
        args.push(line);
        let r = CommandStep { program: "/bin/sh".to_owned(), args };
        proof {
            assert(r.args.deep_view() =~= seq!["-c"@, l]);
        }
        r
    }

    /// A copy of the step, with the same program and arguments.
    pub fn duplicate(&self) -> (r: CommandStep)
        ensures
            r@ == self@,
    {
        let r = CommandStep { program: self.program.clone(), args: self.args.clone() };
        proof {
            assert(r.args.deep_view() =~= self.args.deep_view());
        }
        r
    }
}

/// An image reference: the name (or registry URL) joined to the version
/// tag by a colon.
pub open spec fn spec_image_reference(name: Seq<char>, version: Seq<char>) -> Seq<char> {
    name + ":"@ + version
}

/// Builds `name:version`.
pub fn image_reference(name: &str, version: &str) -> (r: String)
    ensures
        r@ == spec_image_reference(name@, version@),
{
    let mut s = name.to_owned();
    s.append(":");
    s.append(version);
    s
}

/// The registry login line: a short-lived credential is obtained and fed
/// to the local image tool's login on its standard input.
pub open spec fn spec_login_line(registry_url: Seq<char>) -> Seq<char> {
    "aws ecr get-login-password | docker login --username AWS --password-stdin "@ + registry_url
}

/// Builds the registry login line.
pub fn login_line(registry_url: &str) -> (r: String)
    ensures
        r@ == spec_login_line(registry_url@),
{
    let mut s = "aws ecr get-login-password | docker login --username AWS --password-stdin ".to_owned();
    s.append(registry_url);
    s
}

/// The target-selection part of the build line: present exactly when a
/// build target is configured.
pub open spec fn spec_target_part(target: Option<Seq<char>>) -> Seq<char> {
    match target {
        Some(t) => " --target "@ + t,
        None => Seq::empty(),
    }
}

/// One build-argument flag as it stands in the command line: the flag
/// text followed by the raw `KEY=VALUE` pair, verbatim.
pub open spec fn spec_arg_flag(arg: Seq<char>) -> Seq<char> {
    " --build-arg "@ + arg
}

/// One `--build-arg` flag per configured argument, appended in
/// configuration order, each value passed through verbatim.
pub open spec fn spec_build_args_suffix(args: Seq<Seq<char>>) -> Seq<char>
    decreases args.len(),
{
    if args.len() == 0 {
        Seq::empty()
    } else {
        spec_build_args_suffix(args.drop_last()) + spec_arg_flag(args.last())
    }
}

/// The build line before the build arguments: tool, optional target
/// selection, local image reference, recipe path, build context.
pub open spec fn spec_build_base(
    service: Seq<char>,
    version: Seq<char>,
    target: Option<Seq<char>>,
    dockerfile: Seq<char>,
    root: Seq<char>,
) -> Seq<char> {
    "docker build"@ + spec_target_part(target) + " -t "@ + spec_image_reference(service, version)
        + " -f "@ + dockerfile + " "@ + root
}

/// The complete image build line.
pub open spec fn spec_build_line(
    service: Seq<char>,
    version: Seq<char>,
    target: Option<Seq<char>>,
    dockerfile: Seq<char>,
    root: Seq<char>,
    args: Seq<Seq<char>>,
) -> Seq<char> {
    spec_build_base(service, version, target, dockerfile, root) + spec_build_args_suffix(args)
}

/// Builds the image build line for a request, with the recipe resolved
/// to `absolute_dockerfile` and `deployment_root` as the build context.
#[verifier::loop_isolation(false)]
pub fn build_line(req: &BuildRequest, absolute_dockerfile: &str, deployment_root: &str) -> (r:
    String)
    ensures
        r@ == spec_build_line(
            req.service_name@,
            req.version@,
            req.build_target.deep_view(),
            absolute_dockerfile@,
            deployment_root@,
            req.build_args.deep_view(),
        ),
{
    let ghost base = spec_build_base(
        req.service_name@,
        req.version@,
        req.build_target.deep_view(),
        absolute_dockerfile@,
        deployment_root@,
    );
    let mut line = "docker build".to_owned();
    match &req.build_target {
        Some(t) => {
            line.append(" --target ");
            line.append(t.as_str());
        },
        None => {},
    }
    line.append(" -t ");
    let local = image_reference(req.service_name.as_str(), req.version.as_str());
    line.append(local.as_str());
    line.append(" -f ");
    line.append(absolute_dockerfile);
    line.append(" ");
    line.append(deployment_root);
    proof {
        assert(line@ =~= base);
    }
    let ghost av = req.build_args.deep_view();
    let mut k: usize = 0;
    while k < req.build_args.len()
        invariant
            k <= req.build_args.len(),
            line@ == base + spec_build_args_suffix(av.take(k as int)),
        decreases req.build_args.len() - k,
    {
        line.append(" --build-arg ");
        line.append(req.build_args[k].as_str());
        proof {
            assert(av.take(k as int + 1).drop_last() =~= av.take(k as int));
            assert(av.take(k as int + 1).last() == av[k as int]);
            assert(line@ =~= base + spec_build_args_suffix(av.take(k as int + 1)));
        }
        k = k + 1;
    }
    proof {
        assert(av.take(req.build_args.len() as int) =~= av);
    }
    line
}

/// The tag line: applies the remote reference to the just-built local
/// image.
pub open spec fn spec_tag_line(local: Seq<char>, remote: Seq<char>) -> Seq<char> {
    "docker tag "@ + local + " "@ + remote
}

/// Builds the tag line.
pub fn tag_line(local: &str, remote: &str) -> (r: String)
    ensures
        r@ == spec_tag_line(local@, remote@),
{
    let mut s = "docker tag ".to_owned();
    s.append(local);
    s.append(" ");
    s.append(remote);
    proof {
        assert(s@ =~= spec_tag_line(local@, remote@));
    }
    s
}

/// The push line: uploads the tagged image to the registry.
pub open spec fn spec_push_line(remote: Seq<char>) -> Seq<char> {
    "docker push "@ + remote
}

/// Builds the push line.
pub fn push_line(remote: &str) -> (r: String)
    ensures
        r@ == spec_push_line(remote@),
{
    let mut s = "docker push ".to_owned();
    s.append(remote);
    s
}

/// The command sequence is the one the request calls for: registry
/// login, image build, tag, push, in that order and nothing else.
pub open spec fn plan_for_request(
    plan: Seq<CommandStep>,
    req: BuildRequest,
    dockerfile: Seq<char>,
    root: Seq<char>,
) -> bool {
    &&& plan.len() == 4
    &&& plan[0].wraps(spec_login_line(req.registry_url@))
    &&& plan[1].wraps(
        spec_build_line(
            req.service_name@,
            req.version@,
            req.build_target.deep_view(),
            dockerfile,
            root,
            req.build_args.deep_view(),
        ),
    )
    &&& plan[2].wraps(
        spec_tag_line(
            spec_image_reference(req.service_name@, req.version@),
            spec_image_reference(req.registry_url@, req.version@),
        ),
    )
    &&& plan[3].wraps(spec_push_line(spec_image_reference(req.registry_url@, req.version@)))
}

/// Assembles the ordered command sequence for a request whose version
/// tag is absent from the registry.
pub fn assemble_plan(req: &BuildRequest, absolute_dockerfile: &str, deployment_root: &str) -> (r:
    Vec<CommandStep>)
    ensures
        plan_for_request(r@, *req, absolute_dockerfile@, deployment_root@),
{
    let mut plan: Vec<CommandStep> = Vec::new();
    plan.push(CommandStep::shell_step(login_line(req.registry_url.as_str())));
    plan.push(CommandStep::shell_step(build_line(req, absolute_dockerfile, deployment_root)));
    let local = image_reference(req.service_name.as_str(), req.version.as_str());
    let remote = image_reference(req.registry_url.as_str(), req.version.as_str());
    plan.push(CommandStep::shell_step(tag_line(local.as_str(), remote.as_str())));
    plan.push(CommandStep::shell_step(push_line(remote.as_str())));
    plan
}

/// Where the flag of argument `j` starts inside the build-argument
/// suffix: right after the flags of all earlier arguments.
pub open spec fn spec_args_offset(args: Seq<Seq<char>>, j: int) -> int {
    spec_build_args_suffix(args.take(j)).len() as int
}

/// Taking one more argument appends exactly that argument's flag.
proof fn lemma_suffix_take_step(args: Seq<Seq<char>>, j: int)
    requires
        0 <= j < args.len(),
    ensures
        spec_build_args_suffix(args.take(j + 1)) == spec_build_args_suffix(args.take(j))
            + spec_arg_flag(args[j]),
{
    assert(args.take(j + 1).drop_last() =~= args.take(j));
    assert(args.take(j + 1).last() == args[j]);
}

/// The flag of argument `j` occupies the suffix from its offset on.
proof fn lemma_arg_flag_position(args: Seq<Seq<char>>, j: int)
    requires
        0 <= j < args.len(),
    ensures
        occurs_at(spec_build_args_suffix(args), spec_arg_flag(args[j]), spec_args_offset(args, j)),
    decreases args.len(),
{
    let flag = spec_arg_flag(args[j]);
    if j == args.len() - 1 {
        assert(args.take(j) =~= args.drop_last());
        lemma_occurs_in_self(flag);
        lemma_occurs_in_suffix(spec_build_args_suffix(args.drop_last()), flag, flag, 0);
    } else {
        let shorter = args.drop_last();
        lemma_arg_flag_position(shorter, j);
        assert(shorter.take(j) =~= args.take(j));
        assert(shorter[j] == args[j]);
        lemma_occurs_in_prefix(
            spec_build_args_suffix(shorter),
            spec_arg_flag(args.last()),
            flag,
            spec_args_offset(shorter, j),
        );
    }
}

/// Flag offsets grow strictly with the argument's position: each flag
/// is non-empty, so later arguments stand strictly further right.
proof fn lemma_args_offsets_ordered(args: Seq<Seq<char>>, j1: int, j2: int)
    requires
        0 <= j1 < j2 <= args.len(),
    ensures
        spec_args_offset(args, j1) < spec_args_offset(args, j2),
    decreases j2 - j1,
{
    reveal_strlit(" --build-arg ");
    lemma_suffix_take_step(args, j1);
    if j1 + 1 < j2 {
        lemma_args_offsets_ordered(args, j1 + 1, j2);
    }
}

/// Law: every configured build argument appears in the assembled build
/// command as its own `--build-arg` flag occurrence, and any two
/// arguments keep their configuration order: the flag of the earlier
/// argument starts strictly left of the flag of the later one.
pub proof fn lemma_build_args_in_order(
    service: Seq<char>,
    version: Seq<char>,
    target: Option<Seq<char>>,
    dockerfile: Seq<char>,
    root: Seq<char>,
    args: Seq<Seq<char>>,
    j1: int,
    j2: int,
)
    requires
        0 <= j1 <= j2 < args.len(),
    ensures
        ({
            let line = spec_build_line(service, version, target, dockerfile, root, args);
            let base = spec_build_base(service, version, target, dockerfile, root);
            &&& occurs_at(line, spec_arg_flag(args[j1]), base.len() + spec_args_offset(args, j1))
            &&& occurs_at(line, spec_arg_flag(args[j2]), base.len() + spec_args_offset(args, j2))
            &&& j1 < j2 ==> base.len() + spec_args_offset(args, j1) < base.len()
                + spec_args_offset(args, j2)
        }),
{
    let base = spec_build_base(service, version, target, dockerfile, root);
    let sfx = spec_build_args_suffix(args);
    lemma_arg_flag_position(args, j1);
    lemma_arg_flag_position(args, j2);
    lemma_occurs_in_suffix(base, sfx, spec_arg_flag(args[j1]), spec_args_offset(args, j1));
    lemma_occurs_in_suffix(base, sfx, spec_arg_flag(args[j2]), spec_args_offset(args, j2));
    if j1 < j2 {
        lemma_args_offsets_ordered(args, j1, j2);
    }
}

/// Law: a configured build target puts a target-selection flag with
/// that value in the assembled build command, right after the tool
/// name.  With no target configured the target part of the line is
/// empty by definition, so nothing between the tool name and the `-t`
/// flag is inserted.
pub proof fn lemma_build_target_flag(
    service: Seq<char>,
    version: Seq<char>,
    t: Seq<char>,
    dockerfile: Seq<char>,
    root: Seq<char>,
    args: Seq<Seq<char>>,
)
    ensures
        occurs_at(
            spec_build_line(service, version, Some(t), dockerfile, root, args),
            " --target "@ + t,
            "docker build"@.len() as int,
        ),
        spec_target_part(None) == Seq::<char>::empty(),
{
    let a = "docker build"@;
    let p = " --target "@ + t;
    let ir = spec_image_reference(service, version);
    lemma_occurs_in_self(p);
    lemma_occurs_in_suffix(a, p, p, 0);
    lemma_occurs_in_prefix(a + p, " -t "@, p, a.len() as int);
    lemma_occurs_in_prefix(a + p + " -t "@, ir, p, a.len() as int);
    lemma_occurs_in_prefix(a + p + " -t "@ + ir, " -f "@, p, a.len() as int);
    lemma_occurs_in_prefix(a + p + " -t "@ + ir + " -f "@, dockerfile, p, a.len() as int);
    lemma_occurs_in_prefix(a + p + " -t "@ + ir + " -f "@ + dockerfile, " "@, p, a.len() as int);
    lemma_occurs_in_prefix(
        a + p + " -t "@ + ir + " -f "@ + dockerfile + " "@,
        root,
        p,
        a.len() as int,
    );
    lemma_occurs_in_prefix(
        spec_build_base(service, version, Some(t), dockerfile, root),
        spec_build_args_suffix(args),
        p,
        a.len() as int,
    );
}

} // verus!
