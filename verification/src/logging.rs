//! Bookkeeping and text of the detection log. Files are the caller's
//! business: this module decides what is written and renders the lines.

use vstd::prelude::*;
use vstd::string::StringExecFns;
use crate::text::decimal;
use crate::text::decimal_string;
use crate::text::join;
use crate::text::joined;
use crate::text::same_text;
use crate::text::signed_decimal;
use crate::text::signed_decimal_string;
use crate::text::texts;

verus! {

/// Output formats of the detection log.
#[derive(Debug, Clone, Copy, PartialEq, Eq, Structural)]
pub enum LogFormat {
    /// One JSON object per line.
    Json,
    /// Comma-separated values, with a header line.
    Csv,
    /// Both of the above, each in its own file.
    Both,
}

/// The format that goes by `name`, if there is one. Names are lower case.
pub open spec fn format_named(name: Seq<char>) -> Option<LogFormat> {
    if name == "json"@ {
        Some(LogFormat::Json)
    } else if name == "csv"@ {
        Some(LogFormat::Csv)
    } else if name == "both"@ {
        Some(LogFormat::Both)
    } else {
        None
    }
}

impl LogFormat {
    /// Finds the format that goes by `name`. An unknown name gives
    /// nothing.
    pub fn parse(name: &str) -> (res: Option<LogFormat>)
        ensures
            res == format_named(name@),
    {
        if same_text(name, "json") {
            Some(LogFormat::Json)
        } else if same_text(name, "csv") {
            Some(LogFormat::Csv)
        } else if same_text(name, "both") {
            Some(LogFormat::Both)
        } else {
            None
        }
    }

    /// Whether a JSON file is written.
    pub open spec fn has_json(self) -> bool {
        self == LogFormat::Json || self == LogFormat::Both
    }

    /// Whether a CSV file is written.
    pub open spec fn has_csv(self) -> bool {
        self == LogFormat::Csv || self == LogFormat::Both
    }

    /// Tells whether a JSON file is written.
    pub fn writes_json(&self) -> (yes: bool)
        ensures
            yes == self.has_json(),
    {
        match self {
            LogFormat::Json => true,
            LogFormat::Csv => false,
            LogFormat::Both => true,
        }
    }

    /// Tells whether a CSV file is written.
    pub fn writes_csv(&self) -> (yes: bool)
        ensures
            yes == self.has_csv(),
    {
        match self {
            LogFormat::Json => false,
            LogFormat::Csv => true,
            LogFormat::Both => true,
        }
    }
}

/// Settings of the detection log.
#[derive(Debug, Clone)]
pub struct LoggingConfig {
    /// Whether anything is logged at all.
    pub enabled: bool,
    /// Path of the log files, without the extension that the format adds.
    pub output_file: String,
    /// Which files are written.
    pub format: LogFormat,
    /// Size in bytes of each file's write buffer.
    pub buffer_size: usize,
    /// Whether every event is flushed as soon as it is written.
    pub auto_flush: bool,
}

impl LoggingConfig {
    /// Path of the JSON file: the output path with `.json` behind it.
    pub fn json_path(&self) -> (path: String)
        ensures
            path@ == self.output_file@ + ".json"@,
    {
        self.output_file.clone().concat(".json")
    }

    /// Path of the CSV file: the output path with `.csv` behind it.
    pub fn csv_path(&self) -> (path: String)
        ensures
            path@ == self.output_file@ + ".csv"@,
    {
        self.output_file.clone().concat(".csv")
    }
}

impl Default for LoggingConfig {
    fn default() -> (config: Self)
        ensures
            config.enabled,
            config.output_file@ == "weed_detections"@,
            config.format == LogFormat::Json,
            config.buffer_size == 1024,
            config.auto_flush,
    {
        LoggingConfig {
            enabled: true,
            output_file: String::from_str("weed_detections"),
            format: LogFormat::Json,
            buffer_size: 1024,
            auto_flush: true,
        }
    }
}

/// What was done about a detection.
#[derive(Debug, Clone)]
pub enum ActionTaken {
    /// The sprayers on the given pins were opened for the given time.
    SprayActivated { duration_ms: u32, sprayers: Vec<u8> },
    /// The detection was only logged.
    LoggedOnly,
    /// Something was done by hand.
    Manual { description: String },
}

/// The last three columns of a CSV record.
#[derive(Debug, Clone)]
pub struct ActionColumns {
    /// `spray`, `log_only`, or `manual:` and the description.
    pub action_type: String,
    /// Spray time in ms, empty where nothing was sprayed.
    pub spray_duration: String,
    /// The sprayers' pins with `;` between them, empty where nothing was
    /// sprayed.
    pub sprayers: String,
}

/// The header line of the CSV file, without its line end.
pub const CSV_HEADER: &'static str =
    "id,timestamp,latitude,longitude,altitude,gps_accuracy,is_mock_gps,algorithm,center_x,center_y,bbox_x,bbox_y,bbox_width,bbox_height,area,confidence,frame_number,action_type,spray_duration_ms,sprayers";

/// The decimal text of each number.
pub open spec fn decimals(values: Seq<u8>) -> Seq<Seq<char>> {
    Seq::new(values.len(), |i: int| decimal(values[i] as nat))
}

/// The three action columns of a CSV record, as texts.
pub open spec fn action_texts(action: ActionTaken) -> (Seq<char>, Seq<char>, Seq<char>) {
    match action {
        ActionTaken::SprayActivated { duration_ms, sprayers } => (
            "spray"@,
            decimal(duration_ms as nat),
            joined(decimals(sprayers@), ";"@),
        ),
        ActionTaken::LoggedOnly => ("log_only"@, Seq::empty(), Seq::empty()),
        ActionTaken::Manual { description } => ("manual:"@ + description@, Seq::empty(), Seq::empty()),
    }
}

/// Renders one CSV record from its columns: the columns with commas between
/// them, without a line end. Nothing is quoted or escaped.
pub fn csv_line(columns: &Vec<String>) -> (line: String)
    ensures
        line@ == joined(texts(columns@), ","@),
{
    join(columns, ",")
}

/// Writes the sprayers' pins in decimal with `;` between them.
pub fn sprayer_list(sprayers: &Vec<u8>) -> (list: String)
    ensures
        list@ == joined(decimals(sprayers@), ";"@),
{
    let count: usize = sprayers.len();
    let mut parts: Vec<String> = Vec::with_capacity(count);
    let mut i: usize = 0;
    while i < count
        invariant
            count == sprayers@.len(),
            i <= count,
            parts@.len() == i,
            forall|k: int| 0 <= k < i ==> (#[trigger] parts@[k])@ == decimal(sprayers@[k] as nat),
        decreases count - i,
    {
        parts.push(decimal_string(sprayers[i] as u64));
        i += 1;
    }
    assert(texts(parts@) =~= decimals(sprayers@));
    join(&parts, ";")
}

/// Renders the three action columns of a CSV record.
pub fn action_columns(action: &ActionTaken) -> (columns: ActionColumns)
    ensures
        columns.action_type@ == action_texts(*action).0,
        columns.spray_duration@ == action_texts(*action).1,
        columns.sprayers@ == action_texts(*action).2,
{
    match action {
        ActionTaken::SprayActivated { duration_ms, sprayers } => ActionColumns {
            action_type: String::from_str("spray"),
            spray_duration: decimal_string(*duration_ms as u64),
            sprayers: sprayer_list(sprayers),
        },
        ActionTaken::LoggedOnly => ActionColumns {
            action_type: String::from_str("log_only"),
            spray_duration: String::new(),
            sprayers: String::new(),
        },
        ActionTaken::Manual { description } => ActionColumns {
            action_type: String::from_str("manual:").concat(description.as_str()),
            spray_duration: String::new(),
            sprayers: String::new(),
        },
    }
}

/// What goes into one CSV record. Columns that hold floating-point
/// numbers come as the text to be written.
#[derive(Debug, Clone)]
pub struct CsvFields {
    /// Unique id of the event.
    pub id: String,
    /// Time of the event.
    pub timestamp: String,
    /// Latitude in degrees, empty without a position.
    pub latitude: String,
    /// Longitude in degrees, empty without a position.
    pub longitude: String,
    /// Altitude in metres, empty where unknown.
    pub altitude: String,
    /// Horizontal accuracy in metres, empty where unknown.
    pub gps_accuracy: String,
    /// Whether the position is simulated; true without a position.
    pub is_mock_gps: bool,
    /// Name of the detection algorithm.
    pub algorithm: String,
    /// Column of the detection's centre.
    pub center_x: i32,
    /// Row of the detection's centre.
    pub center_y: i32,
    /// The detection's box as `[x, y, width, height]`.
    pub bounding_box: [i32; 4],
    /// Area of the detection in pixels.
    pub area: String,
    /// Confidence of the detection, empty where unknown.
    pub confidence: String,
    /// Number of the frame in the video stream.
    pub frame_number: u64,
    /// What was done about the detection.
    pub action: ActionTaken,
}

/// The text of a truth value.
pub open spec fn bool_text(b: bool) -> Seq<char> {
    if b {
        "true"@
    } else {
        "false"@
    }
}

/// The twenty columns of a CSV record, in the order of `CSV_HEADER`.
pub open spec fn record_texts(fields: CsvFields) -> Seq<Seq<char>> {
    seq![
        fields.id@,
        fields.timestamp@,
        fields.latitude@,
        fields.longitude@,
        fields.altitude@,
        fields.gps_accuracy@,
        bool_text(fields.is_mock_gps),
        fields.algorithm@,
        signed_decimal(fields.center_x as int),
        signed_decimal(fields.center_y as int),
        signed_decimal(fields.bounding_box@[0] as int),
        signed_decimal(fields.bounding_box@[1] as int),
        signed_decimal(fields.bounding_box@[2] as int),
        signed_decimal(fields.bounding_box@[3] as int),
        fields.area@,
        fields.confidence@,
        decimal(fields.frame_number as nat),
        action_texts(fields.action).0,
        action_texts(fields.action).1,
        action_texts(fields.action).2,
    ]
}

/// Renders one CSV record: its twenty columns in the order of
/// `CSV_HEADER`, with commas between them, without a line end. Nothing is
/// quoted or escaped.
pub fn csv_record(fields: &CsvFields) -> (line: String)
    ensures
        line@ == joined(record_texts(*fields), ","@),
{
    let action = action_columns(&fields.action);
    let mut columns: Vec<String> = Vec::with_capacity(20);
    columns.push(fields.id.clone());
    columns.push(fields.timestamp.clone());
    columns.push(fields.latitude.clone());
    columns.push(fields.longitude.clone());
    columns.push(fields.altitude.clone());
    columns.push(fields.gps_accuracy.clone());
    columns.push(
        if fields.is_mock_gps {
            String::from_str("true")
        } else {
            String::from_str("false")
        },
    );
    columns.push(fields.algorithm.clone());
    columns.push(signed_decimal_string(fields.center_x as i64));
    columns.push(signed_decimal_string(fields.center_y as i64));
    columns.push(signed_decimal_string(fields.bounding_box[0] as i64));
    columns.push(signed_decimal_string(fields.bounding_box[1] as i64));
    columns.push(signed_decimal_string(fields.bounding_box[2] as i64));
    columns.push(signed_decimal_string(fields.bounding_box[3] as i64));
    columns.push(fields.area.clone());
    columns.push(fields.confidence.clone());
    columns.push(decimal_string(fields.frame_number));
    columns.push(action.action_type);
    columns.push(action.spray_duration);
    columns.push(action.sprayers);
    assert(texts(columns@) =~= record_texts(*fields));
    csv_line(&columns)
}

/// A lower-case hexadecimal digit.
pub open spec fn is_hex_lower(c: char) -> bool {
    ('0' <= c && c <= '9') || ('a' <= c && c <= 'f')
}

/// The text of a random (version 4) UUID in hyphenated lower-case form:
/// 36 characters in groups of 8, 4, 4, 4 and 12 hexadecimal digits with
/// hyphens between them, the third group starting with the version `4` and
/// the fourth with one of `8`, `9`, `a`, `b`.
pub open spec fn is_event_id(s: Seq<char>) -> bool {
    &&& s.len() == 36
    &&& forall|i: int|
        0 <= i < 36 ==> if i == 8 || i == 13 || i == 18 || i == 23 {
            #[trigger] s[i] == '-'
        } else {
            is_hex_lower(s[i])
        }
    &&& s[14] == '4'
    &&& (s[19] == '8' || s[19] == '9' || s[19] == 'a' || s[19] == 'b')
}

/// Draws a new event id: `uuid::Uuid::new_v4()`, written out by its
/// `Display` impl. Trusted: the id has the shape of `is_event_id`, which
/// is what the uuid crate's hyphenated lower-case formatting of a version 4
/// UUID gives. Which id comes out is up to the system's random source.
#[verifier::external_body]
fn fresh_event_id() -> (id: String)
    ensures
        is_event_id(id@),
{
    uuid::Uuid::new_v4().to_string()
}

/// Reads the clock: `chrono::Utc::now()`, written out by `to_rfc3339`.
/// Trusted, and nothing is claimed of the text.
#[verifier::external_body]
fn timestamp_now() -> (stamp: String) {
    chrono::Utc::now().to_rfc3339()
}

/// What the log knows of an event before its record is written.
#[derive(Debug, Clone)]
pub struct EventStamp {
    /// Unique id of the event.
    pub id: String,
    /// Time of the event.
    pub timestamp: String,
    /// Number of the event, counted from one.
    pub number: u64,
    /// Whether a line goes to the JSON file.
    pub write_json: bool,
    /// Whether a line goes to the CSV file.
    pub write_csv: bool,
    /// Whether the files are flushed after this event.
    pub flush: bool,
    /// Whether the count of events is worth a progress message: every
    /// hundredth event is.
    pub report_progress: bool,
}

/// The event count after one more event; it stops at the largest `u64`.
pub open spec fn next_count(count: u64) -> u64 {
    if count == u64::MAX {
        u64::MAX
    } else {
        (count + 1) as u64
    }
}

/// The detection log's bookkeeping: its settings and the number of events
/// logged so far.
#[derive(Debug, Clone)]
pub struct LogBook {
    config: LoggingConfig,
    event_count: u64,
}

impl LogBook {
    /// The settings the log was opened with.
    pub closed spec fn settings(&self) -> LoggingConfig {
        self.config
    }

    /// Number of events logged so far.
    pub closed spec fn logged(&self) -> u64 {
        self.event_count
    }

    /// What `stamp` answers in state `self` to an event with the given id
    /// and time, and the state `post` it leaves: a disabled log answers
    /// nothing and counts nothing; an enabled log counts the event and
    /// says where its record goes.
    pub open spec fn stamped(
        &self,
        post: &Self,
        id: String,
        timestamp: String,
        res: Option<EventStamp>,
    ) -> bool {
        let config = self.settings();
        &&& post.settings() == config
        &&& !config.enabled ==> res is None && post.logged() == self.logged()
        &&& config.enabled ==> {
            &&& post.logged() == next_count(self.logged())
            &&& res == Some(
                EventStamp {
                    id,
                    timestamp,
                    number: post.logged(),
                    write_json: config.format.has_json(),
                    write_csv: config.format.has_csv(),
                    flush: config.auto_flush,
                    report_progress: post.logged() % 100 == 0,
                },
            )
        }
    }

    /// A log that has seen no event.
    pub fn new(config: LoggingConfig) -> (book: Self)
        ensures
            book.settings() == config,
            book.logged() == 0,
    {
        LogBook { config, event_count: 0 }
    }

    /// Takes note of an event whose id and time are given.
    pub fn stamp(&mut self, id: String, timestamp: String) -> (res: Option<EventStamp>)
        ensures
            old(self).stamped(final(self), id, timestamp, res),
    {
        if !self.config.enabled {
            return None;
        }
        self.event_count = self.event_count.saturating_add(1);
        Some(
            EventStamp {
                id,
                timestamp,
                number: self.event_count,
                write_json: self.config.format.writes_json(),
                write_csv: self.config.format.writes_csv(),
                flush: self.config.auto_flush,
                report_progress: self.event_count % 100 == 0,
            },
        )
    }

    /// Takes note of an event that happens now: draws its id, reads the
    /// clock and stamps it. A disabled log does neither and answers
    /// nothing.
    pub fn begin_event(&mut self) -> (res: Option<EventStamp>)
        ensures
            res is Some <==> old(self).settings().enabled,
            res matches Some(stamp) ==> is_event_id(stamp.id@) && old(self).stamped(
                final(self),
                stamp.id,
                stamp.timestamp,
                res,
            ),
            res is None ==> final(self).settings() == old(self).settings() && final(self).logged()
                == old(self).logged(),
    {
        if !self.config.enabled {
            return None;
        }
        let id = fresh_event_id();
        let timestamp = timestamp_now();
        self.stamp(id, timestamp)
    }

    /// Number of events logged so far.
    pub fn event_count(&self) -> (count: u64)
        ensures
            count == self.logged(),
    {
        self.event_count
    }

    /// Whether anything is logged at all.
    pub fn is_enabled(&self) -> (enabled: bool)
        ensures
            enabled == self.settings().enabled,
    {
        self.config.enabled
    }

    /// The settings the log was opened with.
    pub fn config(&self) -> (config: &LoggingConfig)
        ensures
            *config == self.settings(),
    {
        &self.config
    }
}

} // verus!
