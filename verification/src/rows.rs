//! The rows under which the router's answers are shown.

use crate::model::{ConnectionInfo, Device, Devices, Overview};
use crate::table::{Column, Field, TableRow};
use vstd::prelude::*;
use vstd::string::*;

verus! {

/// The text of an optional string: nothing where there is none.
pub open spec fn text_or_empty(text: Option<String>) -> Seq<char> {
    match text {
        Some(s) => s@,
        None => Seq::empty(),
    }
}

fn or_empty(text: Option<String>) -> (r: String)
    ensures
        r@ == text_or_empty(text),
{
    match text {
        Some(s) => s,
        None => String::new(),
    }
}

/// The router's overview as one row.
pub struct OverviewRow {
    pub model: String,
    pub version: String,
    pub name: String,
    pub update_available: String,
    pub dsl_status: String,
    pub inet_status: String,
}

impl TableRow for OverviewRow {
    open spec fn fields(&self) -> Seq<Field> {
        seq![
            Field { name: "model"@, text: self.model@ },
            Field { name: "version"@, text: self.version@ },
            Field { name: "name"@, text: self.name@ },
            Field { name: "update_available"@, text: self.update_available@ },
            Field { name: "dsl_status"@, text: self.dsl_status@ },
            Field { name: "inet_status"@, text: self.inet_status@ },
        ]
    }

    fn columns(&self) -> (cols: Vec<Column>) {
        let mut cols: Vec<Column> = Vec::new();
        cols.push(Column::of_text("model", self.model.as_str()));
        cols.push(Column::of_text("version", self.version.as_str()));
        cols.push(Column::of_text("name", self.name.as_str()));
        cols.push(Column::of_text("update_available", self.update_available.as_str()));
        cols.push(Column::of_text("dsl_status", self.dsl_status.as_str()));
        cols.push(Column::of_text("inet_status", self.inet_status.as_str()));
        cols
    }
}

/// How a link is shown: `up / down (state)`.
pub open spec fn link_status(link: ConnectionInfo) -> Seq<char> {
    link.up@ + " / "@ + link.down@ + " ("@ + link.state@ + ")"@
}

fn link_text(link: &ConnectionInfo) -> (r: String)
    ensures
        r@ == link_status(*link),
{
    let mut text = link.up.clone();
    text.append(" / ");
    text.append(link.down.as_str());
    text.append(" (");
    text.append(link.state.as_str());
    text.append(")");
    text
}

/// `Yes` or `No`.
pub open spec fn yes_or_no(yes: bool) -> Seq<char> {
    if yes {
        "Yes"@
    } else {
        "No"@
    }
}

/// What the row of an overview shows in each column.
pub open spec fn overview_fields(overview: Overview) -> Seq<Field> {
    seq![
        Field { name: "model"@, text: overview.data.os.product_name@ },
        Field { name: "version"@, text: overview.data.os.version@ },
        Field { name: "name"@, text: overview.data.os.name@ },
        Field {
            name: "update_available"@,
            text: yes_or_no(overview.data.os.is_update_available),
        },
        Field { name: "dsl_status"@, text: link_status(overview.data.dsl) },
        Field { name: "inet_status"@, text: link_status(overview.data.internet) },
    ]
}

impl OverviewRow {
    /// The row for an overview: model, version and name of the router as it
    /// reports them, whether an update is at hand as `Yes` or `No`, and
    /// both links as `up / down (state)`.
    pub fn from_overview(overview: Overview) -> (row: OverviewRow)
        ensures
            row.fields() == overview_fields(overview),
    {
        let dsl_status = link_text(&overview.data.dsl);
        let inet_status = link_text(&overview.data.internet);
        let os = overview.data.os;
        let update_available = if os.is_update_available {
            "Yes".to_owned()
        } else {
            "No".to_owned()
        };
        let row = OverviewRow {
            model: os.product_name,
            version: os.version,
            name: os.name,
            update_available,
            dsl_status,
            inet_status,
        };
        assert(row.fields() =~= overview_fields(overview));
        row
    }
}

/// One device as a row.
pub struct DevicesRow {
    pub name: String,
    pub ip: String,
    pub lastused: String,
    pub connection: String,
    pub model: String,
    pub uid: String,
    pub trusted: String,
    pub state: String,
}

impl TableRow for DevicesRow {
    open spec fn fields(&self) -> Seq<Field> {
        seq![
            Field { name: "name"@, text: self.name@ },
            Field { name: "ip"@, text: self.ip@ },
            Field { name: "lastused"@, text: self.lastused@ },
            Field { name: "connection"@, text: self.connection@ },
            Field { name: "model"@, text: self.model@ },
            Field { name: "uid"@, text: self.uid@ },
            Field { name: "trusted"@, text: self.trusted@ },
            Field { name: "state"@, text: self.state@ },
        ]
    }

    fn columns(&self) -> (cols: Vec<Column>) {
        let mut cols: Vec<Column> = Vec::new();
        cols.push(Column::of_text("name", self.name.as_str()));
        cols.push(Column::of_text("ip", self.ip.as_str()));
        cols.push(Column::of_text("lastused", self.lastused.as_str()));
        cols.push(Column::of_text("connection", self.connection.as_str()));
        cols.push(Column::of_text("model", self.model.as_str()));
        cols.push(Column::of_text("uid", self.uid.as_str()));
        cols.push(Column::of_text("trusted", self.trusted.as_str()));
        cols.push(Column::of_text("state", self.state.as_str()));
        cols
    }
}

/// What a device's row shows in each column.
pub open spec fn device_fields(device: Device) -> Seq<Field> {
    seq![
        Field { name: "name"@, text: text_or_empty(device.name) },
        Field {
            name: "ip"@,
            text: match device.ipv4 {
                Some(v4) => v4.ip@,
                None => Seq::empty(),
            },
        },
        Field {
            name: "lastused"@,
            text: match device.ipv4 {
                Some(v4) => text_or_empty(v4.lastused),
                None => Seq::empty(),
            },
        },
        Field { name: "connection"@, text: text_or_empty(device.typ) },
        Field { name: "model"@, text: text_or_empty(device.model) },
        Field { name: "uid"@, text: device.uid@ },
        Field {
            name: "trusted"@,
            text: if device.is_trusted == Some(true) {
                "Yes"@
            } else {
                Seq::empty()
            },
        },
        Field { name: "state"@, text: text_or_empty(device.state) },
    ]
}

impl DevicesRow {
    /// The row for a device: what the router reports of it, an empty cell
    /// for what it does not report, and `Yes` under `trusted` only for a
    /// device that is reported as trusted.
    pub fn from_device(device: Device) -> (row: DevicesRow)
        ensures
            row.fields() == device_fields(device),
    {
        let (ip, lastused) = match device.ipv4 {
            Some(v4) => (v4.ip, or_empty(v4.lastused)),
            None => (String::new(), String::new()),
        };
        let trusted = match device.is_trusted {
            Some(true) => "Yes".to_owned(),
            _ => String::new(),
        };
        let row = DevicesRow {
            name: or_empty(device.name),
            ip,
            lastused,
            connection: or_empty(device.typ),
            model: or_empty(device.model),
            uid: device.uid,
            trusted,
            state: or_empty(device.state),
        };
        assert(row.fields() =~= device_fields(device));
        row
    }
}

/// The fields of the rows for all devices of an answer, in order.
pub open spec fn device_table(devices: Devices) -> Seq<Seq<Field>> {
    match devices.all() {
        Some(all) => all.map_values(|d: Device| device_fields(d)),
        None => Seq::empty(),
    }
}

/// One row for each device of the answer, the active devices first. An
/// answer without data gives no rows.
pub fn device_rows(devices: Devices) -> (rows: Vec<DevicesRow>)
    ensures
        rows@.map_values(|r: DevicesRow| r.fields()) == device_table(devices),
{
    let mut rows: Vec<DevicesRow> = Vec::new();
    let ghost table = device_table(devices);
    match devices.devices() {
        None => {
            assert(rows@.map_values(|r: DevicesRow| r.fields()) =~= table);
        },
        Some(list) => {
            let ghost all = list@;
            for device in it: list
                invariant
                    it.seq() == all,
                    rows@.len() == it.index(),
                    forall|k: int| 0 <= k < rows@.len() ==> (#[trigger] rows@[k]).fields() == device_fields(all[k]),
            {
                rows.push(DevicesRow::from_device(device));
            }
            assert(rows@.map_values(|r: DevicesRow| r.fields()) =~= table);
        },
    }
    rows
}

} // verus!
