//! The tools that the server offers: their names, what they tell a caller
//! about themselves, and the console command that each call asks for.

use vstd::prelude::*;
use vstd::string::*;
use crate::bareos::{
    list_jobs_command, list_volumes_command, run_of, BareosClient, Invocation, JobFilter,
    JobListParams,
};
use crate::json::{items_of, member, members_of, Json, JsonValue};
use crate::text::{chars_of, same_text};

verus! {

/// What `list_jobs` says of itself.
pub const LIST_JOBS_HELP: &'static str = "List Bareos jobs with optional filters. Returns ALL job types by default (backup, restore, verify, admin, copy, migration). IMPORTANT: When users ask about 'backups' or 'backup performance', filter by jobtype='B' to show only backup jobs, excluding verification and other operations. COMBINATION RULES: All filter parameters (job, client, jobstatus, jobtype, joblevel, volume, pool) can be freely combined with each other and with time/output parameters. Time parameters (days, hours) are mutually exclusive - if both provided, hours wins. Output parameters (last, count) are mutually exclusive - if both provided, count wins. Examples: {jobtype:'B',hours:24}, {client:'web',days:7}, {jobstatus:'f',hours:24,count:true}";

/// What `get_job_status` says of itself.
pub const GET_JOB_STATUS_HELP: &'static str = "Get detailed status of a specific job by ID";

/// What `get_job_log` says of itself.
pub const GET_JOB_LOG_HELP: &'static str = "Get the log output for a specific job";

/// What `list_clients` says of itself.
pub const LIST_CLIENTS_HELP: &'static str = "List all Bareos clients (file daemons)";

/// What `list_filesets` says of itself.
pub const LIST_FILESETS_HELP: &'static str = "List all configured filesets";

/// What `list_pools` says of itself.
pub const LIST_POOLS_HELP: &'static str = "List all storage pools";

/// What `list_volumes` says of itself.
pub const LIST_VOLUMES_HELP: &'static str = "List all volumes/media in storage";

/// What `list_files` says of itself.
pub const LIST_FILES_HELP: &'static str = "List all files backed up in a specific job";

/// What `list_jobs` says of its argument `job`.
pub const JOB_HELP: &'static str = "Filter by job name. Can combine with any other parameters.";

/// What `list_jobs` says of its argument `client`.
pub const CLIENT_HELP: &'static str = "Filter by client name. Can combine with any other parameters.";

/// What `list_jobs` says of its argument `jobstatus`.
pub const JOBSTATUS_HELP: &'static str = "Filter by job status: T (terminated/success), f (failed), R (running), C (created), A (canceled), E (error). Can combine with any other parameters.";

/// What `list_jobs` says of its argument `jobtype`.
pub const JOBTYPE_HELP: &'static str = "Filter by job type: B (backup), R (restore), V (verify), D (admin), C (copy), M (migration). Can combine with any other parameters.";

/// What `list_jobs` says of its argument `joblevel`.
pub const JOBLEVEL_HELP: &'static str = "Filter by job level: F (full), I (incremental), D (differential). Can combine with any other parameters.";

/// What `list_jobs` says of its argument `volume`.
pub const VOLUME_HELP: &'static str = "Filter by volume name. Can combine with any other parameters.";

/// What `list_jobs` says of its argument `pool`.
pub const POOL_HELP: &'static str = "Filter by pool name. Can combine with any other parameters.";

/// What `list_jobs` says of its argument `days`.
pub const DAYS_HELP: &'static str = "Show jobs from last N days. Mutually exclusive with hours (hours wins if both given). Can combine with all filter and output parameters.";

/// What `list_jobs` says of its argument `hours`.
pub const HOURS_HELP: &'static str = "Show jobs from last N hours. Mutually exclusive with days (this takes precedence if both given). Can combine with all filter and output parameters.";

/// What `list_jobs` says of its argument `last`.
pub const LAST_HELP: &'static str = "Show only the most recent run of each job (within the filter criteria). WARNING: If jobs ran multiple times in the time range, only the LAST run will be returned. Mutually exclusive with count (count wins if both given). Can combine with all filter and time parameters.";

/// What `list_jobs` says of its argument `count`.
pub const COUNT_HELP: &'static str = "Show count of matching jobs instead of job details. Mutually exclusive with last (this takes precedence if both given). Can combine with all filter and time parameters.";

/// What `get_job_status` says of its argument `job_id`.
pub const STATUS_JOB_ID_HELP: &'static str = "The job ID to query";

/// What `get_job_log` says of its argument `job_id`.
pub const LOG_JOB_ID_HELP: &'static str = "The job ID to get logs for";

/// What `list_volumes` says of its argument `pool`.
pub const VOLUMES_POOL_HELP: &'static str = "Filter by specific pool name (optional)";

/// What `list_files` says of its argument `job_id`.
pub const FILES_JOB_ID_HELP: &'static str = "The job ID to list files for";

/// A tool of the server.
#[derive(Clone, Copy, Debug, PartialEq, Eq)]
pub enum Tool {
    ListJobs,
    GetJobStatus,
    GetJobLog,
    ListClients,
    ListFilesets,
    ListPools,
    ListVolumes,
    ListFiles,
}

/// The type of an argument, as the schema of a tool names it.
#[derive(Clone, Copy, Debug, PartialEq, Eq)]
pub enum ArgumentKind {
    /// A string.
    Text,
    /// A number.
    Number,
    /// A boolean.
    Flag,
}

/// One argument that a tool accepts.
#[derive(Clone, Copy, Debug, PartialEq, Eq)]
pub struct Argument {
    pub name: &'static str,
    pub kind: ArgumentKind,
    /// What the tool says of the argument.
    pub help: &'static str,
    /// Whether the schema lists the argument as required.
    pub required: bool,
}

impl ArgumentKind {
    /// The name of the type in a schema.
    pub open spec fn schema_name(self) -> Seq<char> {
        match self {
            ArgumentKind::Text => "string"@,
            ArgumentKind::Number => "number"@,
            ArgumentKind::Flag => "boolean"@,
        }
    }

    /// The name of the type in a schema.
    pub fn schema_type(self) -> (name: &'static str)
        ensures
            name@ == self.schema_name(),
    {
        match self {
            ArgumentKind::Text => "string",
            ArgumentKind::Number => "number",
            ArgumentKind::Flag => "boolean",
        }
    }
}

/// Every tool, in the order in which the server lists them.
pub open spec fn all_tools() -> Seq<Tool> {
    seq![
        Tool::ListJobs,
        Tool::GetJobStatus,
        Tool::GetJobLog,
        Tool::ListClients,
        Tool::ListFilesets,
        Tool::ListPools,
        Tool::ListVolumes,
        Tool::ListFiles,
    ]
}

/// The tools of the server, in the order in which it lists them.
pub fn catalog() -> (tools: Vec<Tool>)
    ensures
        tools@ == all_tools(),
{
    let tools = vec![
        Tool::ListJobs,
        Tool::GetJobStatus,
        Tool::GetJobLog,
        Tool::ListClients,
        Tool::ListFilesets,
        Tool::ListPools,
        Tool::ListVolumes,
        Tool::ListFiles,
    ];
    assert(tools@ =~= all_tools());
    tools
}

impl Tool {
    /// The name by which a request calls the tool.
    pub open spec fn name_text(self) -> Seq<char> {
        match self {
            Tool::ListJobs => "list_jobs"@,
            Tool::GetJobStatus => "get_job_status"@,
            Tool::GetJobLog => "get_job_log"@,
            Tool::ListClients => "list_clients"@,
            Tool::ListFilesets => "list_filesets"@,
            Tool::ListPools => "list_pools"@,
            Tool::ListVolumes => "list_volumes"@,
            Tool::ListFiles => "list_files"@,
        }
    }

    /// The name by which a request calls the tool.
    pub fn name(self) -> (name: &'static str)
        ensures
            name@ == self.name_text(),
    {
        match self {
            Tool::ListJobs => "list_jobs",
            Tool::GetJobStatus => "get_job_status",
            Tool::GetJobLog => "get_job_log",
            Tool::ListClients => "list_clients",
            Tool::ListFilesets => "list_filesets",
            Tool::ListPools => "list_pools",
            Tool::ListVolumes => "list_volumes",
            Tool::ListFiles => "list_files",
        }
    }

    /// What the tool says of itself.
    pub open spec fn help_text(self) -> Seq<char> {
        match self {
            Tool::ListJobs => LIST_JOBS_HELP@,
            Tool::GetJobStatus => GET_JOB_STATUS_HELP@,
            Tool::GetJobLog => GET_JOB_LOG_HELP@,
            Tool::ListClients => LIST_CLIENTS_HELP@,
            Tool::ListFilesets => LIST_FILESETS_HELP@,
            Tool::ListPools => LIST_POOLS_HELP@,
            Tool::ListVolumes => LIST_VOLUMES_HELP@,
            Tool::ListFiles => LIST_FILES_HELP@,
        }
    }

    /// What the tool says of itself.
    pub fn help(self) -> (help: &'static str)
        ensures
            help@ == self.help_text(),
    {
        match self {
            Tool::ListJobs => LIST_JOBS_HELP,
            Tool::GetJobStatus => GET_JOB_STATUS_HELP,
            Tool::GetJobLog => GET_JOB_LOG_HELP,
            Tool::ListClients => LIST_CLIENTS_HELP,
            Tool::ListFilesets => LIST_FILESETS_HELP,
            Tool::ListPools => LIST_POOLS_HELP,
            Tool::ListVolumes => LIST_VOLUMES_HELP,
            Tool::ListFiles => LIST_FILES_HELP,
        }
    }

    /// The arguments that the tool accepts, in the order of its schema.
    pub open spec fn accepted(self) -> Seq<Argument> {
        match self {
            Tool::ListJobs => seq![
                Argument { name: "job", kind: ArgumentKind::Text, help: JOB_HELP, required: false },
                Argument { name: "client", kind: ArgumentKind::Text, help: CLIENT_HELP, required: false },
                Argument { name: "jobstatus", kind: ArgumentKind::Text, help: JOBSTATUS_HELP, required: false },
                Argument { name: "jobtype", kind: ArgumentKind::Text, help: JOBTYPE_HELP, required: false },
                Argument { name: "joblevel", kind: ArgumentKind::Text, help: JOBLEVEL_HELP, required: false },
                Argument { name: "volume", kind: ArgumentKind::Text, help: VOLUME_HELP, required: false },
                Argument { name: "pool", kind: ArgumentKind::Text, help: POOL_HELP, required: false },
                Argument { name: "days", kind: ArgumentKind::Number, help: DAYS_HELP, required: false },
                Argument { name: "hours", kind: ArgumentKind::Number, help: HOURS_HELP, required: false },
                Argument { name: "last", kind: ArgumentKind::Flag, help: LAST_HELP, required: false },
                Argument { name: "count", kind: ArgumentKind::Flag, help: COUNT_HELP, required: false },
            ],
            Tool::GetJobStatus => seq![
                Argument { name: "job_id", kind: ArgumentKind::Text, help: STATUS_JOB_ID_HELP, required: true },
            ],
            Tool::GetJobLog => seq![
                Argument { name: "job_id", kind: ArgumentKind::Text, help: LOG_JOB_ID_HELP, required: true },
            ],
            Tool::ListClients => Seq::empty(),
            Tool::ListFilesets => Seq::empty(),
            Tool::ListPools => Seq::empty(),
            Tool::ListVolumes => seq![
                Argument { name: "pool", kind: ArgumentKind::Text, help: VOLUMES_POOL_HELP, required: false },
            ],
            Tool::ListFiles => seq![
                Argument { name: "job_id", kind: ArgumentKind::Text, help: FILES_JOB_ID_HELP, required: true },
            ],
        }
    }

    /// The arguments that the tool accepts, in the order of its schema.
    pub fn arguments(self) -> (arguments: Vec<Argument>)
        ensures
            arguments@ == self.accepted(),
    {
        let arguments = match self {
            Tool::ListJobs => vec![
                Argument { name: "job", kind: ArgumentKind::Text, help: JOB_HELP, required: false },
                Argument { name: "client", kind: ArgumentKind::Text, help: CLIENT_HELP, required: false },
                Argument { name: "jobstatus", kind: ArgumentKind::Text, help: JOBSTATUS_HELP, required: false },
                Argument { name: "jobtype", kind: ArgumentKind::Text, help: JOBTYPE_HELP, required: false },
                Argument { name: "joblevel", kind: ArgumentKind::Text, help: JOBLEVEL_HELP, required: false },
                Argument { name: "volume", kind: ArgumentKind::Text, help: VOLUME_HELP, required: false },
                Argument { name: "pool", kind: ArgumentKind::Text, help: POOL_HELP, required: false },
                Argument { name: "days", kind: ArgumentKind::Number, help: DAYS_HELP, required: false },
                Argument { name: "hours", kind: ArgumentKind::Number, help: HOURS_HELP, required: false },
                Argument { name: "last", kind: ArgumentKind::Flag, help: LAST_HELP, required: false },
                Argument { name: "count", kind: ArgumentKind::Flag, help: COUNT_HELP, required: false },
            ],
            Tool::GetJobStatus => vec![
                Argument { name: "job_id", kind: ArgumentKind::Text, help: STATUS_JOB_ID_HELP, required: true },
            ],
            Tool::GetJobLog => vec![
                Argument { name: "job_id", kind: ArgumentKind::Text, help: LOG_JOB_ID_HELP, required: true },
            ],
            Tool::ListClients => Vec::new(),
            Tool::ListFilesets => Vec::new(),
            Tool::ListPools => Vec::new(),
            Tool::ListVolumes => vec![
                Argument { name: "pool", kind: ArgumentKind::Text, help: VOLUMES_POOL_HELP, required: false },
            ],
            Tool::ListFiles => vec![
                Argument { name: "job_id", kind: ArgumentKind::Text, help: FILES_JOB_ID_HELP, required: true },
            ],
        };
        assert(arguments@ =~= self.accepted());
        arguments
    }
}

/// The member of a schema's properties that describes `argument`.
pub open spec fn property(argument: Argument) -> (Seq<char>, JsonValue) {
    (
        argument.name@,
        JsonValue::Object(
            seq![
                ("type"@, JsonValue::Text(argument.kind.schema_name())),
                ("description"@, JsonValue::Text(argument.help@)),
            ],
        ),
    )
}

/// The properties of a schema: one member for each argument, in order.
pub open spec fn properties(arguments: Seq<Argument>) -> Seq<(Seq<char>, JsonValue)> {
    Seq::new(arguments.len(), |i: int| property(arguments[i]))
}

/// The names of the required arguments, in order.
pub open spec fn required_names(arguments: Seq<Argument>) -> Seq<JsonValue>
    decreases arguments.len(),
{
    if arguments.len() == 0 {
        Seq::empty()
    } else if arguments.last().required {
        required_names(arguments.drop_last()).push(JsonValue::Text(arguments.last().name@))
    } else {
        required_names(arguments.drop_last())
    }
}

/// The schema of a tool's arguments: an object with the given properties. It
/// names the required arguments where there are any, and says nothing of
/// requirements where there are none.
pub open spec fn input_schema(arguments: Seq<Argument>) -> JsonValue {
    let always = seq![
        ("type"@, JsonValue::Text("object"@)),
        ("properties"@, JsonValue::Object(properties(arguments))),
    ];
    if required_names(arguments).len() > 0 {
        JsonValue::Object(always.push(("required"@, JsonValue::Array(required_names(arguments)))))
    } else {
        JsonValue::Object(always)
    }
}

/// What the server tells a caller about `tool`.
pub open spec fn descriptor(tool: Tool) -> JsonValue {
    JsonValue::Object(
        seq![
            ("name"@, JsonValue::Text(tool.name_text())),
            ("description"@, JsonValue::Text(tool.help_text())),
            ("inputSchema"@, input_schema(tool.accepted())),
        ],
    )
}

/// The listing of all tools: their descriptors, in order.
pub open spec fn tools_listing() -> JsonValue {
    JsonValue::Object(
        seq![
            (
                "tools"@,
                JsonValue::Array(Seq::new(all_tools().len(), |i: int| descriptor(all_tools()[i]))),
            ),
        ],
    )
}

/// Builds the schema of a tool's arguments.
pub fn input_schema_json(arguments: &Vec<Argument>) -> (schema: Json)
    ensures
        schema@ == input_schema(arguments@),
{
    let mut described: Vec<(String, Json)> = Vec::new();
    let mut required: Vec<Json> = Vec::new();
    let mut i: usize = 0;
    while i < arguments.len()
        invariant
            i <= arguments.len(),
            members_of(described@) =~= properties(arguments@.take(i as int)),
            items_of(required@) =~= required_names(arguments@.take(i as int)),
        decreases arguments.len() - i,
    {
        let argument = arguments[i];
        let ghost before = arguments@.take(i as int);
        let ghost after = arguments@.take(i + 1);
        assert(after.drop_last() =~= before);
        assert(after.last() == argument);
        let detail = vec![
            member("type", Json::text(argument.kind.schema_type())),
            member("description", Json::text(argument.help)),
        ];
        assert(members_of(detail@) =~= seq![
            ("type"@, JsonValue::Text(argument.kind.schema_name())),
            ("description"@, JsonValue::Text(argument.help@)),
        ]);
        let ghost listed = members_of(described@);
        described.push(member(argument.name, Json::Object(detail)));
        proof {
            assert forall|k: int| 0 <= k < i implies properties(after)[k] == listed[k] by {
                assert(after[k] == before[k]);
            }
            assert(properties(after)[i as int] == property(argument));
            assert(members_of(described@) =~= listed.push(property(argument)));
        }
        if argument.required {
            required.push(Json::text(argument.name));
        }
        i += 1;
    }
    assert(arguments@.take(arguments.len() as int) =~= arguments@);
    let mut members = vec![
        member("type", Json::text("object")),
        member("properties", Json::Object(described)),
    ];
    assert(members_of(members@) =~= seq![
        ("type"@, JsonValue::Text("object"@)),
        ("properties"@, JsonValue::Object(properties(arguments@))),
    ]);
    if required.len() > 0 {
        let ghost always = members_of(members@);
        members.push(member("required", Json::Array(required)));
        assert(members_of(members@) =~= always.push(
            ("required"@, JsonValue::Array(required_names(arguments@))),
        ));
    }
    Json::Object(members)
}

/// Builds what the server tells a caller about `tool`.
pub fn describe(tool: Tool) -> (description: Json)
    ensures
        description@ == descriptor(tool),
{
    let arguments = tool.arguments();
    let members = vec![
        member("name", Json::text(tool.name())),
        member("description", Json::text(tool.help())),
        member("inputSchema", input_schema_json(&arguments)),
    ];
    assert(members_of(members@) =~= seq![
        ("name"@, JsonValue::Text(tool.name_text())),
        ("description"@, JsonValue::Text(tool.help_text())),
        ("inputSchema"@, input_schema(tool.accepted())),
    ]);
    Json::Object(members)
}

/// Builds the listing of all tools.
pub fn tools_listing_json() -> (listing: Json)
    ensures
        listing@ == tools_listing(),
{
    let tools = catalog();
    let mut described: Vec<Json> = Vec::new();
    let mut i: usize = 0;
    while i < tools.len()
        invariant
            i <= tools.len(),
            tools@ == all_tools(),
            described.len() == i,
            forall|k: int| 0 <= k < i ==> (#[trigger] described[k])@ == descriptor(tools[k]),
        decreases tools.len() - i,
    {
        described.push(describe(tools[i]));
        i += 1;
    }
    assert(items_of(described@) =~= Seq::new(
        all_tools().len(),
        |i: int| descriptor(all_tools()[i]),
    ));
    let members = vec![member("tools", Json::Array(described))];
    assert(members_of(members@) =~= seq![("tools"@, Json::Array(described)@)]);
    Json::Object(members)
}

/// The tool that a request calls by `name`, if the server has one.
pub open spec fn tool_named(name: Seq<char>) -> Option<Tool> {
    if name == Tool::ListJobs.name_text() {
        Some(Tool::ListJobs)
    } else if name == Tool::GetJobStatus.name_text() {
        Some(Tool::GetJobStatus)
    } else if name == Tool::GetJobLog.name_text() {
        Some(Tool::GetJobLog)
    } else if name == Tool::ListClients.name_text() {
        Some(Tool::ListClients)
    } else if name == Tool::ListFilesets.name_text() {
        Some(Tool::ListFilesets)
    } else if name == Tool::ListPools.name_text() {
        Some(Tool::ListPools)
    } else if name == Tool::ListVolumes.name_text() {
        Some(Tool::ListVolumes)
    } else if name == Tool::ListFiles.name_text() {
        Some(Tool::ListFiles)
    } else {
        None
    }
}

/// Looks a tool up by the name under which a request calls it.
pub fn find_tool(name: &str) -> (tool: Option<Tool>)
    ensures
        tool == tool_named(name@),
{
    if same_text(name, Tool::ListJobs.name()) {
        Some(Tool::ListJobs)
    } else if same_text(name, Tool::GetJobStatus.name()) {
        Some(Tool::GetJobStatus)
    } else if same_text(name, Tool::GetJobLog.name()) {
        Some(Tool::GetJobLog)
    } else if same_text(name, Tool::ListClients.name()) {
        Some(Tool::ListClients)
    } else if same_text(name, Tool::ListFilesets.name()) {
        Some(Tool::ListFilesets)
    } else if same_text(name, Tool::ListPools.name()) {
        Some(Tool::ListPools)
    } else if same_text(name, Tool::ListVolumes.name()) {
        Some(Tool::ListVolumes)
    } else if same_text(name, Tool::ListFiles.name()) {
        Some(Tool::ListFiles)
    } else {
        None
    }
}

/// Every tool is found under its own name, and under no other tool's: the
/// names are distinct.
pub proof fn lemma_tool_names(tool: Tool)
    ensures
        tool_named(tool.name_text()) == Some(tool),
{
    reveal_strlit("list_jobs");
    reveal_strlit("get_job_status");
    reveal_strlit("get_job_log");
    reveal_strlit("list_clients");
    reveal_strlit("list_filesets");
    reveal_strlit("list_pools");
    reveal_strlit("list_volumes");
    reveal_strlit("list_files");
    let jobs = Tool::ListJobs.name_text();
    let status = Tool::GetJobStatus.name_text();
    let log = Tool::GetJobLog.name_text();
    let clients = Tool::ListClients.name_text();
    let filesets = Tool::ListFilesets.name_text();
    let pools = Tool::ListPools.name_text();
    let volumes = Tool::ListVolumes.name_text();
    let files = Tool::ListFiles.name_text();
    assert(jobs.len() == 9 && status.len() == 14 && log.len() == 11 && clients.len() == 12
        && filesets.len() == 13 && pools.len() == 10 && volumes.len() == 12 && files.len()
        == 10);
    assert(clients[5] == 'c' && volumes[5] == 'v');
    assert(pools[5] == 'p' && files[5] == 'f');
}

/// The value that stands at a place of a request: null where nothing does.
pub open spec fn value_of(json: Option<&Json>) -> JsonValue {
    match json {
        Some(value) => value@,
        None => JsonValue::Null,
    }
}

/// The member under `key` of what stands at a place of a request.
pub fn field<'a>(json: Option<&'a Json>, key: &str) -> (found: Option<&'a Json>)
    ensures
        value_of(found) == value_of(json).member(key@),
{
    match json {
        Some(value) => value.get(key),
        None => None,
    }
}

/// The string under `name`, if the arguments hold one there.
pub open spec fn text_argument(arguments: JsonValue, name: Seq<char>) -> Option<Seq<char>> {
    arguments.member(name).as_text()
}

/// The string under `name`, or the empty string where the arguments hold
/// none there.
pub open spec fn text_or_empty(arguments: JsonValue, name: Seq<char>) -> Seq<char> {
    match text_argument(arguments, name) {
        Some(text) => text,
        None => Seq::empty(),
    }
}

/// The unsigned number under `name`, cut to its low 32 bits, if the arguments
/// hold one there.
pub open spec fn number_argument(arguments: JsonValue, name: Seq<char>) -> Option<u32> {
    match arguments.member(name).as_unsigned() {
        Some(n) => Some((n % 0x1_0000_0000) as u32),
        None => None,
    }
}

/// The boolean under `name`, or false where the arguments hold none there.
pub open spec fn flag_argument(arguments: JsonValue, name: Seq<char>) -> bool {
    match arguments.member(name).as_flag() {
        Some(flag) => flag,
        None => false,
    }
}

/// The filters of a job listing that the arguments ask for.
pub open spec fn job_filter(arguments: JsonValue) -> JobFilter {
    JobFilter {
        job: text_argument(arguments, "job"@),
        client: text_argument(arguments, "client"@),
        jobstatus: text_argument(arguments, "jobstatus"@),
        jobtype: text_argument(arguments, "jobtype"@),
        joblevel: text_argument(arguments, "joblevel"@),
        volume: text_argument(arguments, "volume"@),
        pool: text_argument(arguments, "pool"@),
        days: number_argument(arguments, "days"@),
        hours: number_argument(arguments, "hours"@),
        last: flag_argument(arguments, "last"@),
        count: flag_argument(arguments, "count"@),
    }
}

/// The console command that a call of `tool` with `arguments` asks for. An
/// argument that is missing, or of another type than the tool expects, counts
/// as not given; a job id that is not given is the empty string.
pub open spec fn command_of(tool: Tool, arguments: JsonValue) -> Seq<char> {
    match tool {
        Tool::ListJobs => list_jobs_command(job_filter(arguments)),
        Tool::GetJobStatus => "list jobid="@ + text_or_empty(arguments, "job_id"@),
        Tool::GetJobLog => "list joblog jobid="@ + text_or_empty(arguments, "job_id"@),
        Tool::ListClients => "list clients"@,
        Tool::ListFilesets => "list filesets"@,
        Tool::ListPools => "list pools"@,
        Tool::ListVolumes => list_volumes_command(text_argument(arguments, "pool"@)),
        Tool::ListFiles => "list files jobid="@ + text_or_empty(arguments, "job_id"@),
    }
}

fn text_of<'a>(arguments: Option<&'a Json>, name: &str) -> (text: Option<&'a str>)
    ensures
        match text {
            Some(t) => text_argument(value_of(arguments), name@) == Some(t@),
            None => text_argument(value_of(arguments), name@) is None,
        },
{
    match field(arguments, name) {
        Some(value) => value.as_str(),
        None => None,
    }
}

fn owned_text_of(arguments: Option<&Json>, name: &str) -> (text: Option<String>)
    ensures
        chars_of(text) == text_argument(value_of(arguments), name@),
{
    match text_of(arguments, name) {
        Some(t) => Some(String::from_str(t)),
        None => None,
    }
}

fn text_or_empty_of<'a>(arguments: Option<&'a Json>, name: &str) -> (text: &'a str)
    ensures
        text@ == text_or_empty(value_of(arguments), name@),
{
    match text_of(arguments, name) {
        Some(t) => t,
        None => {
            proof {
                reveal_strlit("");
            }
            assert(""@ =~= Seq::<char>::empty());
            ""
        },
    }
}

fn number_of(arguments: Option<&Json>, name: &str) -> (number: Option<u32>)
    ensures
        number == number_argument(value_of(arguments), name@),
{
    match field(arguments, name) {
        Some(value) => match value.as_u64() {
            Some(n) => Some((n % 0x1_0000_0000) as u32),
            None => None,
        },
        None => None,
    }
}

fn flag_of(arguments: Option<&Json>, name: &str) -> (flag: bool)
    ensures
        flag == flag_argument(value_of(arguments), name@),
{
    match field(arguments, name) {
        Some(value) => match value.as_bool() {
            Some(b) => b,
            None => false,
        },
        None => false,
    }
}

/// Reads the filters of a job listing from the arguments of a call.
pub fn job_list_params(arguments: Option<&Json>) -> (params: JobListParams)
    ensures
        params@ == job_filter(value_of(arguments)),
{
    JobListParams {
        job: owned_text_of(arguments, "job"),
        client: owned_text_of(arguments, "client"),
        jobstatus: owned_text_of(arguments, "jobstatus"),
        jobtype: owned_text_of(arguments, "jobtype"),
        joblevel: owned_text_of(arguments, "joblevel"),
        volume: owned_text_of(arguments, "volume"),
        pool: owned_text_of(arguments, "pool"),
        days: number_of(arguments, "days"),
        hours: number_of(arguments, "hours"),
        last: flag_of(arguments, "last"),
        count: flag_of(arguments, "count"),
    }
}

impl Tool {
    /// The run of the console that a call of the tool with `arguments` asks
    /// for.
    pub fn invoke(self, client: &BareosClient, arguments: Option<&Json>) -> (run: Invocation)
        ensures
            run@ == run_of(client.path(), command_of(self, value_of(arguments))),
    {
        match self {
            Tool::ListJobs => client.list_jobs(job_list_params(arguments)),
            Tool::GetJobStatus => client.get_job_status(text_or_empty_of(arguments, "job_id")),
            Tool::GetJobLog => client.get_job_log(text_or_empty_of(arguments, "job_id")),
            Tool::ListClients => client.list_clients(),
            Tool::ListFilesets => client.list_filesets(),
            Tool::ListPools => client.list_pools(),
            Tool::ListVolumes => client.list_volumes(text_of(arguments, "pool")),
            Tool::ListFiles => client.list_files(text_or_empty_of(arguments, "job_id")),
        }
    }
}

} // verus!
