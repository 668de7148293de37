//! The console client: which command each operation sends, how a command is
//! fed to the console, and when a finished run counts as a success.

use vstd::prelude::*;
use vstd::string::*;
use vstd::utf8::{decode_utf8, valid_utf8};
use crate::error::{Failure, ToolError};
use crate::text::{chars_of, decimal, decimal_text};

verus! {

/// The console program that is run when nothing else is configured: a bare
/// name, looked up on the search path when the program is started.
pub const DEFAULT_CONSOLE: &'static str = "bconsole";

/// The environment variable by which another console program is configured.
pub const CONSOLE_PATH_VARIABLE: &'static str = "BAREOS_BCONSOLE_PATH";

/// The filters of a job listing. Every field is optional on its own; none is
/// checked against another.
pub struct JobListParams {
    pub job: Option<String>,
    pub client: Option<String>,
    pub jobstatus: Option<String>,
    pub jobtype: Option<String>,
    pub joblevel: Option<String>,
    pub volume: Option<String>,
    pub pool: Option<String>,
    pub days: Option<u32>,
    pub hours: Option<u32>,
    pub last: bool,
    pub count: bool,
}

/// The mathematical value of a [`JobListParams`].
pub struct JobFilter {
    pub job: Option<Seq<char>>,
    pub client: Option<Seq<char>>,
    pub jobstatus: Option<Seq<char>>,
    pub jobtype: Option<Seq<char>>,
    pub joblevel: Option<Seq<char>>,
    pub volume: Option<Seq<char>>,
    pub pool: Option<Seq<char>>,
    pub days: Option<u32>,
    pub hours: Option<u32>,
    pub last: bool,
    pub count: bool,
}

impl View for JobListParams {
    type V = JobFilter;

    open spec fn view(&self) -> JobFilter {
        JobFilter {
            job: chars_of(self.job),
            client: chars_of(self.client),
            jobstatus: chars_of(self.jobstatus),
            jobtype: chars_of(self.jobtype),
            joblevel: chars_of(self.joblevel),
            volume: chars_of(self.volume),
            pool: chars_of(self.pool),
            days: self.days,
            hours: self.hours,
            last: self.last,
            count: self.count,
        }
    }
}

/// `prefix` followed by `value` where there is one, nothing where there is
/// none.
pub open spec fn token(prefix: Seq<char>, value: Option<Seq<char>>) -> Seq<char> {
    match value {
        Some(v) => prefix + v,
        None => Seq::empty(),
    }
}

/// `prefix` followed by `value` in decimal where there is one.
pub open spec fn number_token(prefix: Seq<char>, value: Option<u32>) -> Seq<char> {
    match value {
        Some(n) => prefix + decimal(n as nat),
        None => Seq::empty(),
    }
}

/// `word` where `set` holds, nothing where it does not.
pub open spec fn flag_token(word: Seq<char>, set: bool) -> Seq<char> {
    if set {
        word
    } else {
        Seq::empty()
    }
}

/// The console command that lists jobs under `filter`: the fixed words, then
/// one token for each filter that is present, in the order of the fields.
pub open spec fn list_jobs_command(filter: JobFilter) -> Seq<char> {
    "list jobs"@ + token(" job="@, filter.job) + token(" client="@, filter.client) + token(
        " jobstatus="@,
        filter.jobstatus,
    ) + token(" jobtype="@, filter.jobtype) + token(" joblevel="@, filter.joblevel) + token(
        " volume="@,
        filter.volume,
    ) + token(" pool="@, filter.pool) + number_token(" days="@, filter.days) + number_token(
        " hours="@,
        filter.hours,
    ) + flag_token(" last"@, filter.last) + flag_token(" count"@, filter.count)
}

/// Where a job listing is asked for both a number of days and a number of
/// hours, the command holds the token of each, that of the days first: the
/// choice between them is left to the console.
pub proof fn lemma_days_then_hours(filter: JobFilter)
    requires
        filter.days is Some,
        filter.hours is Some,
    ensures
        exists|before: Seq<char>, after: Seq<char>|
            list_jobs_command(filter) == before + (" days="@ + decimal(filter.days->0 as nat)) + (
            " hours="@ + decimal(filter.hours->0 as nat)) + after,
{
    let before = "list jobs"@ + token(" job="@, filter.job) + token(" client="@, filter.client)
        + token(" jobstatus="@, filter.jobstatus) + token(" jobtype="@, filter.jobtype) + token(
        " joblevel="@,
        filter.joblevel,
    ) + token(" volume="@, filter.volume) + token(" pool="@, filter.pool);
    let after = flag_token(" last"@, filter.last) + flag_token(" count"@, filter.count);
    assert(list_jobs_command(filter) =~= before + (" days="@ + decimal(filter.days->0 as nat)) + (
    " hours="@ + decimal(filter.hours->0 as nat)) + after);
}

/// Where a job listing is asked for both the last run and a count, the
/// command ends in both words, `last` first.
pub proof fn lemma_last_then_count(filter: JobFilter)
    requires
        filter.last,
        filter.count,
    ensures
        exists|before: Seq<char>| list_jobs_command(filter) == before + " last"@ + " count"@,
{
    let before = "list jobs"@ + token(" job="@, filter.job) + token(" client="@, filter.client)
        + token(" jobstatus="@, filter.jobstatus) + token(" jobtype="@, filter.jobtype) + token(
        " joblevel="@,
        filter.joblevel,
    ) + token(" volume="@, filter.volume) + token(" pool="@, filter.pool) + number_token(
        " days="@,
        filter.days,
    ) + number_token(" hours="@, filter.hours);
    assert(list_jobs_command(filter) == before + " last"@ + " count"@);
}

/// The console command that lists volumes, of one pool where one is named.
pub open spec fn list_volumes_command(pool: Option<Seq<char>>) -> Seq<char> {
    match pool {
        Some(name) => "list volumes pool="@ + name,
        None => "list volumes"@,
    }
}

/// What is written to the console for one command: the command on a line,
/// then `quit` on a line.
pub open spec fn console_input(command: Seq<char>) -> Seq<char> {
    command + "\n"@ + "quit\n"@
}

/// One run of the console program: what to start and what to feed it.
#[derive(Debug, PartialEq, Eq)]
pub struct Invocation {
    /// The program to start.
    pub program: String,
    /// The text for its standard input, which is then closed.
    pub input: String,
}

/// The mathematical value of an [`Invocation`].
pub struct Run {
    pub program: Seq<char>,
    pub input: Seq<char>,
}

impl View for Invocation {
    type V = Run;

    open spec fn view(&self) -> Run {
        Run { program: self.program@, input: self.input@ }
    }
}

/// The run that sends `command` to the console at `path`.
pub open spec fn run_of(path: Seq<char>, command: Seq<char>) -> Run {
    Run { program: path, input: console_input(command) }
}

/// What a finished run of the console amounts to. Output on standard output
/// is a success whatever the exit status was, since the console is known to
/// exit badly after it has done its work; the run has failed only where it
/// printed nothing and did not exit cleanly, and the failure then carries what
/// it wrote to standard error. A run that broke off after part of its output
/// therefore counts as a success too.
pub open spec fn judged(stdout: Seq<char>, stderr: Seq<char>, exited_ok: bool) -> Result<
    Seq<char>,
    Failure,
> {
    if stdout.len() == 0 && !exited_ok {
        Err(Failure::Failed(stderr))
    } else {
        Ok(stdout)
    }
}

/// The value of the result of a run.
pub open spec fn outcome_of(outcome: Result<String, ToolError>) -> Result<Seq<char>, Failure> {
    match outcome {
        Ok(text) => Ok(text@),
        Err(error) => Err(error@),
    }
}

/// The text that `String::from_utf8_lossy` makes of `bytes`.
pub uninterp spec fn lossy_text(bytes: Seq<u8>) -> Seq<char>;

/// Calls `String::from_utf8_lossy` and takes the text as a `String`. The
/// result depends on the bytes alone; bytes that are valid UTF-8 are read as
/// the text that they encode, with nothing replaced.
#[verifier::external_body]
fn lossy(bytes: &[u8]) -> (text: String)
    ensures
        text@ == lossy_text(bytes@),
        valid_utf8(bytes@) ==> text@ == decode_utf8(bytes@),
{
    String::from_utf8_lossy(bytes).into_owned()
}

/// Judges a finished run by the text that it printed.
pub fn judge_output(stdout: String, stderr: String, exited_ok: bool) -> (outcome: Result<
    String,
    ToolError,
>)
    ensures
        outcome_of(outcome) == judged(stdout@, stderr@, exited_ok),
{
    if stdout.as_str().is_empty() && !exited_ok {
        Err(ToolError::Failed(stderr))
    } else {
        Ok(stdout)
    }
}

/// Judges a finished run by the bytes that it printed, read as UTF-8 with
/// every invalid sequence replaced. A run that printed no byte and did not
/// exit cleanly has failed.
pub fn read_output(stdout: &[u8], stderr: &[u8], exited_ok: bool) -> (outcome: Result<
    String,
    ToolError,
>)
    ensures
        outcome_of(outcome) == judged(lossy_text(stdout@), lossy_text(stderr@), exited_ok),
        valid_utf8(stdout@) && valid_utf8(stderr@) ==> outcome_of(outcome) == judged(
            decode_utf8(stdout@),
            decode_utf8(stderr@),
            exited_ok,
        ),
        stdout@.len() == 0 ==> (outcome is Err <==> !exited_ok),
{
    judge_output(lossy(stdout), lossy(stderr), exited_ok)
}

fn push_token(command: &mut String, prefix: &str, value: &Option<String>)
    ensures
        final(command)@ == old(command)@ + token(prefix@, chars_of(*value)),
{
    match value {
        Some(v) => {
            command.append(prefix);
            command.append(v.as_str());
            assert(command@ =~= old(command)@ + (prefix@ + v@));
        },
        None => {
            assert(command@ =~= old(command)@ + Seq::<char>::empty());
        },
    }
}

fn push_number_token(command: &mut String, prefix: &str, value: Option<u32>)
    ensures
        final(command)@ == old(command)@ + number_token(prefix@, value),
{
    match value {
        Some(n) => {
            let digits = decimal_text(n as u64);
            command.append(prefix);
            command.append(digits.as_str());
            assert(command@ =~= old(command)@ + (prefix@ + decimal(n as nat)));
        },
        None => {
            assert(command@ =~= old(command)@ + Seq::<char>::empty());
        },
    }
}

fn push_flag_token(command: &mut String, word: &str, set: bool)
    ensures
        final(command)@ == old(command)@ + flag_token(word@, set),
{
    if set {
        command.append(word);
    } else {
        assert(command@ =~= old(command)@ + Seq::<char>::empty());
    }
}

fn prefixed(prefix: &str, value: &str) -> (command: String)
    ensures
        command@ == prefix@ + value@,
{
    let mut command = String::from_str(prefix);
    command.append(value);
    command
}

/// The client of one console program.
pub struct BareosClient {
    bconsole_path: String,
}

impl Default for BareosClient {
    fn default() -> (client: Self)
        ensures
            client.path() == DEFAULT_CONSOLE@,
    {
        BareosClient { bconsole_path: String::from_str(DEFAULT_CONSOLE) }
    }
}

impl BareosClient {
    /// The path of the console program that this client runs.
    pub closed spec fn path(&self) -> Seq<char> {
        self.bconsole_path@
    }

    /// A client of the console at `configured`, or of the default console
    /// where no path is configured. The program around the library reads
    /// [`CONSOLE_PATH_VARIABLE`] once, when it starts, and hands its value in.
    pub fn new(configured: Option<String>) -> (client: Self)
        ensures
            client.path() == match configured {
                Some(path) => path@,
                None => DEFAULT_CONSOLE@,
            },
    {
        match configured {
            Some(path) => BareosClient { bconsole_path: path },
            None => BareosClient { bconsole_path: String::from_str(DEFAULT_CONSOLE) },
        }
    }

    fn execute_command(&self, command: &str) -> (run: Invocation)
        ensures
            run@ == run_of(self.path(), command@),
    {
        let mut input = String::from_str(command);
        input.append("\n");
        input.append("quit\n");
        Invocation { program: self.bconsole_path.clone(), input }
    }

    /// Lists jobs under the given filters.
    pub fn list_jobs(&self, params: JobListParams) -> (run: Invocation)
        ensures
            run@ == run_of(self.path(), list_jobs_command(params@)),
    {
        let mut cmd = String::from_str("list jobs");
        push_token(&mut cmd, " job=", &params.job);
        push_token(&mut cmd, " client=", &params.client);
        push_token(&mut cmd, " jobstatus=", &params.jobstatus);
        push_token(&mut cmd, " jobtype=", &params.jobtype);
        push_token(&mut cmd, " joblevel=", &params.joblevel);
        push_token(&mut cmd, " volume=", &params.volume);
        push_token(&mut cmd, " pool=", &params.pool);
        push_number_token(&mut cmd, " days=", params.days);
        push_number_token(&mut cmd, " hours=", params.hours);
        push_flag_token(&mut cmd, " last", params.last);
        push_flag_token(&mut cmd, " count", params.count);
        self.execute_command(cmd.as_str())
    }

    /// Shows one job by its id.
    pub fn get_job_status(&self, job_id: &str) -> (run: Invocation)
        ensures
            run@ == run_of(self.path(), "list jobid="@ + job_id@),
    {
        self.execute_command(prefixed("list jobid=", job_id).as_str())
    }

    /// Shows the log of one job.
    pub fn get_job_log(&self, job_id: &str) -> (run: Invocation)
        ensures
            run@ == run_of(self.path(), "list joblog jobid="@ + job_id@),
    {
        self.execute_command(prefixed("list joblog jobid=", job_id).as_str())
    }

    /// Lists the clients.
    pub fn list_clients(&self) -> (run: Invocation)
        ensures
            run@ == run_of(self.path(), "list clients"@),
    {
        self.execute_command("list clients")
    }

    /// Lists the filesets.
    pub fn list_filesets(&self) -> (run: Invocation)
        ensures
            run@ == run_of(self.path(), "list filesets"@),
    {
        self.execute_command("list filesets")
    }

    /// Lists the pools.
    pub fn list_pools(&self) -> (run: Invocation)
        ensures
            run@ == run_of(self.path(), "list pools"@),
    {
        self.execute_command("list pools")
    }

    /// Lists the volumes, of one pool where one is named.
    pub fn list_volumes(&self, pool: Option<&str>) -> (run: Invocation)
        ensures
            run@ == run_of(
                self.path(),
                list_volumes_command(
                    match pool {
                        Some(name) => Some(name@),
                        None => None,
                    },
                ),
            ),
    {
        match pool {
            Some(pool_name) => self.execute_command(
                prefixed("list volumes pool=", pool_name).as_str(),
            ),
            None => self.execute_command("list volumes"),
        }
    }

    /// Lists the files that one job saved.
    pub fn list_files(&self, job_id: &str) -> (run: Invocation)
        ensures
            run@ == run_of(self.path(), "list files jobid="@ + job_id@),
    {
        self.execute_command(prefixed("list files jobid=", job_id).as_str())
    }

    /// Shows the definition of one job.
    pub fn show_job(&self, job_name: &str) -> (run: Invocation)
        ensures
            run@ == run_of(self.path(), "show job="@ + job_name@),
    {
        self.execute_command(prefixed("show job=", job_name).as_str())
    }

    /// Shows one set of job defaults.
    pub fn show_jobdefs(&self, jobdefs_name: &str) -> (run: Invocation)
        ensures
            run@ == run_of(self.path(), "show jobdefs="@ + jobdefs_name@),
    {
        self.execute_command(prefixed("show jobdefs=", jobdefs_name).as_str())
    }

    /// Shows one schedule.
    pub fn show_schedule(&self, schedule_name: &str) -> (run: Invocation)
        ensures
            run@ == run_of(self.path(), "show schedule="@ + schedule_name@),
    {
        self.execute_command(prefixed("show schedule=", schedule_name).as_str())
    }
}

} // verus!
