//! The server record and the pure part of its lifecycle operations: path
//! resolution, argument building, and the plans that describe the two
//! external processes (installer and server binary) before they are run.

use vstd::prelude::*;
use crate::modpack::Modpack;
use crate::numfmt::{i16_decimal, spec_int_decimal};
use crate::text::str_concat;

verus! {

/// Root directory under which every server's installed binary tree lives.
pub open spec fn spec_installs_root() -> Seq<char> {
    "/var/lib/athena/servers/"@
}

/// Root directory under which every server's profiles directory lives.
pub open spec fn spec_profiles_root() -> Seq<char> {
    "/var/lib/athena/profiles/"@
}

/// Root directory under which every server's log directory lives.
pub open spec fn spec_logs_root() -> Seq<char> {
    "/var/log/athena/"@
}

/// Install directory of the server with the given identifier.
pub open spec fn spec_install_path(id: Seq<char>) -> Seq<char> {
    spec_installs_root() + id
}

/// Profiles directory of the server with the given identifier.
pub open spec fn spec_profiles_path(id: Seq<char>) -> Seq<char> {
    spec_profiles_root() + id
}

/// Log directory of the server with the given identifier.
pub open spec fn spec_logs_path(id: Seq<char>) -> Seq<char> {
    spec_logs_root() + id
}

/// Path of the install/update transcript inside the log directory.
pub open spec fn spec_steamcmd_log_path(id: Seq<char>) -> Seq<char> {
    spec_logs_path(id) + "/steamcmd.log"@
}

/// Path of the server-session transcript inside the log directory.
pub open spec fn spec_server_log_path(id: Seq<char>) -> Seq<char> {
    spec_logs_path(id) + "/server.log"@
}

/// A server record, as the external store hands it out.
///
/// The store owns the record; the library reads a snapshot of it to drive
/// lifecycle operations, so the identity is held as its plain string form.
#[derive(Debug, Clone)]
pub struct Server {
    pub id: String,
    pub name: String,
    pub port: i16,
    pub limit_fps: i16,
    pub extra_flags: Vec<String>,
    pub world: String,
    pub modpack: Option<Modpack>,
}

/// The attributes of a server record about to be created; the store assigns
/// the identifier.
#[derive(Debug, Clone)]
pub struct NewServer {
    pub name: String,
    pub port: i16,
    pub limit_fps: i16,
    pub extra_flags: Vec<String>,
    pub world: String,
    pub modpack: Option<Modpack>,
}

/// The argument list the server binary is launched with: the five fixed
/// flags in order, then the extra flags verbatim and in stored order.
pub open spec fn launch_args_match(args: Seq<String>, s: Server) -> bool {
    &&& args.len() == 5 + s.extra_flags@.len()
    &&& args[0]@ == "-name=main"@
    &&& args[1]@ == "-port="@ + spec_int_decimal(s.port as int)
    &&& args[2]@ == "-limitFPS="@ + spec_int_decimal(s.limit_fps as int)
    &&& args[3]@ == "-world="@ + s.world@
    &&& args[4]@ == "-profiles="@ + spec_profiles_path(s.id@)
    &&& forall|i: int| 0 <= i < s.extra_flags@.len() ==> args[5 + i]@ == s.extra_flags@[i]@
}

/// The argument list handed to the package-fetching tool: select the install
/// directory, log in, update and validate the fixed application, quit.
pub open spec fn install_args_match(
    args: Seq<String>,
    id: Seq<char>,
    username: Seq<char>,
    password: Seq<char>,
) -> bool {
    &&& args.len() == 9
    &&& args[0]@ == "+force_install_dir"@
    &&& args[1]@ == spec_install_path(id)
    &&& args[2]@ == "+login"@
    &&& args[3]@ == username
    &&& args[4]@ == password
    &&& args[5]@ == "+app_update"@
    &&& args[6]@ == "233780"@
    &&& args[7]@ == "validate"@
    &&& args[8]@ == "+quit"@
}

impl Server {
    /// Install directory, a pure function of the identifier.
    pub fn install_path(&self) -> (r: String)
        ensures
            r@ == spec_install_path(self.id@),
    {
        str_concat("/var/lib/athena/servers/", self.id.as_str())
    }

    /// Profiles directory, a pure function of the identifier.
    pub fn profiles_path(&self) -> (r: String)
        ensures
            r@ == spec_profiles_path(self.id@),
    {
        str_concat("/var/lib/athena/profiles/", self.id.as_str())
    }

    /// Log directory, a pure function of the identifier.
    pub fn logs_path(&self) -> (r: String)
        ensures
            r@ == spec_logs_path(self.id@),
    {
        str_concat("/var/log/athena/", self.id.as_str())
    }

    /// Path of the install/update transcript.
    pub fn steamcmd_log_path(&self) -> (r: String)
        ensures
            r@ == spec_steamcmd_log_path(self.id@),
    {
        let lp = self.logs_path();
        str_concat(lp.as_str(), "/steamcmd.log")
    }

    /// Path of the server-session transcript.
    pub fn server_log_path(&self) -> (r: String)
        ensures
            r@ == spec_server_log_path(self.id@),
    {
        let lp = self.logs_path();
        str_concat(lp.as_str(), "/server.log")
    }

    /// The ordered command line for the server binary.
    pub fn launch_args(&self) -> (r: Vec<String>)
        ensures
            launch_args_match(r@, *self),
    {
        let mut args: Vec<String> = Vec::new();
        args.push("-name=main".to_owned());
        let port_s = i16_decimal(self.port);
        args.push(str_concat("-port=", port_s.as_str()));
        let fps_s = i16_decimal(self.limit_fps);
        args.push(str_concat("-limitFPS=", fps_s.as_str()));
        args.push(str_concat("-world=", self.world.as_str()));
        let profiles = self.profiles_path();
        args.push(str_concat("-profiles=", profiles.as_str()));
        let mut i: usize = 0;
        while i < self.extra_flags.len()
            invariant
                i <= self.extra_flags.len(),
                args@.len() == 5 + i,
                args@[0]@ == "-name=main"@,
                args@[1]@ == "-port="@ + spec_int_decimal(self.port as int),
                args@[2]@ == "-limitFPS="@ + spec_int_decimal(self.limit_fps as int),
                args@[3]@ == "-world="@ + self.world@,
                args@[4]@ == "-profiles="@ + spec_profiles_path(self.id@),
                forall|j: int| 0 <= j < i ==> args@[5 + j]@ == self.extra_flags@[j]@,
            decreases self.extra_flags.len() - i,
        {
            args.push(self.extra_flags[i].clone());
            i = i + 1;
        }
        args
    }

    /// The ordered command line for the package-fetching tool.
    pub fn install_args(&self, username: &str, password: &str) -> (r: Vec<String>)
        ensures
            install_args_match(r@, self.id@, username@, password@),
    {
        let mut args: Vec<String> = Vec::new();
        args.push("+force_install_dir".to_owned());
        args.push(self.install_path());
        args.push("+login".to_owned());
        args.push(username.to_owned());
        args.push(password.to_owned());
        args.push("+app_update".to_owned());
        args.push("233780".to_owned());
        args.push("validate".to_owned());
        args.push("+quit".to_owned());
        args
    }
}

/// Everything the process runner needs to know before it starts one
/// external process: which executable, where, with which arguments, which
/// directories must exist first, and where the output transcript goes.
#[derive(Debug, Clone)]
pub struct ProcessPlan {
    pub executable: String,
    pub working_dir: Option<String>,
    pub dirs: Vec<String>,
    pub args: Vec<String>,
    pub log_path: String,
}

/// The plan of an install/update operation for `s`.
pub open spec fn install_plan_match(
    p: ProcessPlan,
    s: Server,
    username: Seq<char>,
    password: Seq<char>,
) -> bool {
    &&& p.executable@ == "/home/hayden/Steam/steamcmd.sh"@
    &&& p.working_dir is None
    &&& p.dirs@.len() == 1
    &&& p.dirs@[0]@ == spec_logs_path(s.id@)
    &&& install_args_match(p.args@, s.id@, username, password)
    &&& p.log_path@ == spec_steamcmd_log_path(s.id@)
}

/// The plan of a launch operation for `s`.
pub open spec fn launch_plan_match(p: ProcessPlan, s: Server) -> bool {
    &&& p.executable@ == "./arma3server_x64"@
    &&& (p.working_dir matches Some(w) && w@ == spec_install_path(s.id@))
    &&& p.dirs@.len() == 3
    &&& p.dirs@[0]@ == spec_install_path(s.id@)
    &&& p.dirs@[1]@ == spec_profiles_path(s.id@)
    &&& p.dirs@[2]@ == spec_logs_path(s.id@)
    &&& launch_args_match(p.args@, s)
    &&& p.log_path@ == spec_server_log_path(s.id@)
}

impl Server {
    /// The plan that drives one install/update of this server's binaries
    /// with the given account credentials.
    pub fn install_update_plan(&self, username: &str, password: &str) -> (r: ProcessPlan)
        ensures
            install_plan_match(r, *self, username@, password@),
    {
        let mut dirs: Vec<String> = Vec::new();
        dirs.push(self.logs_path());
        ProcessPlan {
            executable: "/home/hayden/Steam/steamcmd.sh".to_owned(),
            working_dir: None,
            dirs,
            args: self.install_args(username, password),
            log_path: self.steamcmd_log_path(),
        }
    }

    /// The plan that drives one launch of this server's binary.
    pub fn launch_plan(&self) -> (r: ProcessPlan)
        ensures
            launch_plan_match(r, *self),
    {
        let mut dirs: Vec<String> = Vec::new();
        dirs.push(self.install_path());
        dirs.push(self.profiles_path());
        dirs.push(self.logs_path());
        ProcessPlan {
            executable: "./arma3server_x64".to_owned(),
            working_dir: Some(self.install_path()),
            dirs,
            args: self.launch_args(),
            log_path: self.server_log_path(),
        }
    }
}

/// Cancellation of a shared prefix and suffix: two equally wrapped strings
/// are equal only where the wrapped parts are.
proof fn lemma_concat_cancel(p: Seq<char>, s: Seq<char>, a: Seq<char>, b: Seq<char>)
    requires
        p + a + s == p + b + s,
    ensures
        a == b,
{
    assert((p + a + s).len() == p.len() + a.len() + s.len());
    assert((p + b + s).len() == p.len() + b.len() + s.len());
    assert(a.len() == b.len());
    assert forall|i: int| 0 <= i < a.len() implies a[i] == b[i] by {
        assert((p + a + s)[p.len() + i] == a[i]);
        assert((p + b + s)[p.len() + i] == b[i]);
    }
    assert(a =~= b);
}

/// The three resolved paths of one identifier are pairwise distinct, and
/// each contains the identifier, immediately after its own fixed root.
pub proof fn lemma_paths_distinct(id: Seq<char>)
    ensures
        spec_install_path(id) != spec_profiles_path(id),
        spec_install_path(id) != spec_logs_path(id),
        spec_profiles_path(id) != spec_logs_path(id),
        spec_install_path(id).subrange(
            spec_installs_root().len() as int,
            spec_install_path(id).len() as int,
        ) == id,
        spec_profiles_path(id).subrange(
            spec_profiles_root().len() as int,
            spec_profiles_path(id).len() as int,
        ) == id,
        spec_logs_path(id).subrange(
            spec_logs_root().len() as int,
            spec_logs_path(id).len() as int,
        ) == id,
{
    reveal_strlit("/var/lib/athena/servers/");
    reveal_strlit("/var/lib/athena/profiles/");
    reveal_strlit("/var/log/athena/");
    assert(spec_installs_root().len() == 24);
    assert(spec_profiles_root().len() == 25);
    assert(spec_logs_root().len() == 16);
    assert(spec_install_path(id).len() != spec_profiles_path(id).len());
    assert(spec_install_path(id).len() != spec_logs_path(id).len());
    assert(spec_profiles_path(id).len() != spec_logs_path(id).len());
    assert(spec_install_path(id).subrange(24, spec_install_path(id).len() as int) =~= id);
    assert(spec_profiles_path(id).subrange(25, spec_profiles_path(id).len() as int) =~= id);
    assert(spec_logs_path(id).subrange(16, spec_logs_path(id).len() as int) =~= id);
}

/// Distinct identifiers get distinct log directories and distinct
/// transcript files: concurrent operations on two servers never share a
/// log path.
pub proof fn lemma_log_paths_disjoint(a: Seq<char>, b: Seq<char>)
    requires
        a != b,
    ensures
        spec_logs_path(a) != spec_logs_path(b),
        spec_steamcmd_log_path(a) != spec_steamcmd_log_path(b),
        spec_server_log_path(a) != spec_server_log_path(b),
{
    assert(spec_logs_root() + a + Seq::<char>::empty() =~= spec_logs_path(a));
    assert(spec_logs_root() + b + Seq::<char>::empty() =~= spec_logs_path(b));
    if spec_logs_path(a) == spec_logs_path(b) {
        lemma_concat_cancel(spec_logs_root(), Seq::empty(), a, b);
    }
    if spec_steamcmd_log_path(a) == spec_steamcmd_log_path(b) {
        lemma_concat_cancel(spec_logs_root(), "/steamcmd.log"@, a, b);
    }
    if spec_server_log_path(a) == spec_server_log_path(b) {
        lemma_concat_cancel(spec_logs_root(), "/server.log"@, a, b);
    }
}

} // verus!
