//! The list of containers of a container engine, as rows of a table.

use crate::table::{render, table_of, Column, Field, Renderer, TableRow};
use crate::text::{
    chars_window, decimal, decimal_nat, join, joined_texts, push_decimal, same_text, signed_text,
    texts_of, window,
};
use vstd::prelude::*;
use vstd::string::*;

verus! {

/// The protocol of a port.
#[derive(Clone, Copy, PartialEq, Eq, Structural, Debug)]
pub enum PortType {
    Empty,
    Tcp,
    Udp,
    Sctp,
}

/// One port of a container, and where it is published if it is.
pub struct Port {
    pub ip: Option<String>,
    pub private_port: u16,
    pub public_port: Option<u16>,
    pub typ: Option<PortType>,
}

/// What the engine reports of one container.
pub struct Container {
    pub id: Option<String>,
    pub names: Option<Vec<String>>,
    pub ports: Option<Vec<Port>>,
    pub status: Option<String>,
    pub size_root_fs: Option<i64>,
    pub image: Option<String>,
    pub image_id: Option<String>,
    /// The names of the networks that the container is attached to.
    pub networks: Option<Vec<String>>,
}

/// How many characters of an id are shown.
pub const ID_LENGTH: usize = 12;

/// How many characters stand before the digits of an image id: the length
/// of `sha256:`.
pub const IMAGE_ID_PREFIX_LENGTH: usize = 7;

/// The protocol of a port as a suffix: a slash and its name, or nothing.
pub open spec fn port_type_text(typ: Option<PortType>) -> Seq<char> {
    match typ {
        Some(PortType::Tcp) => "/tcp"@,
        Some(PortType::Udp) => "/udp"@,
        Some(PortType::Sctp) => "/sctp"@,
        _ => Seq::empty(),
    }
}

/// The address that a port is published on, with the colon after it. The
/// address `::` stands in square brackets.
pub open spec fn address_text(ip: Seq<char>) -> Seq<char> {
    if ip == "::"@ {
        "[::]:"@
    } else {
        ip.push(':')
    }
}

/// A port as text: `private/type`, and for a published port
/// `address:public->private/type`.
pub open spec fn port_text(port: Port) -> Seq<char> {
    let private = decimal_nat(port.private_port as nat) + port_type_text(port.typ);
    match (port.ip, port.public_port) {
        (Some(ip), Some(public)) => address_text(ip@) + decimal_nat(public as nat) + "->"@
            + private,
        _ => private,
    }
}

fn push_private(out: &mut String, port: &Port)
    ensures
        final(out)@ == old(out)@ + decimal_nat(port.private_port as nat) + port_type_text(
            port.typ,
        ),
{
    push_decimal(out, port.private_port as u64);
    let ghost digits = out@;
    match port.typ {
        Some(PortType::Tcp) => out.append("/tcp"),
        Some(PortType::Udp) => out.append("/udp"),
        Some(PortType::Sctp) => out.append("/sctp"),
        _ => {
            assert(digits + Seq::<char>::empty() =~= digits);
        },
    }
}

/// A port as text.
pub fn format_port(port: &Port) -> (r: String)
    ensures
        r@ == port_text(*port),
{
    let mut out = String::new();
    match (&port.ip, &port.public_port) {
        (Some(ip), Some(public)) => {
            if same_text(ip.as_str(), "::") {
                out.append("[::]:");
            } else {
                out.append(ip.as_str());
                out.push(':');
            }
            assert(out@ =~= address_text(ip@));
            push_decimal(&mut out, *public as u64);
            out.append("->");
            let ghost before = out@;
            push_private(&mut out, port);
            assert(out@ =~= port_text(*port)) by {
                let private = decimal_nat(port.private_port as nat) + port_type_text(port.typ);
                assert(out@ =~= before + private);
            }
        },
        _ => {
            push_private(&mut out, port);
            assert(out@ =~= port_text(*port));
        },
    }
    out
}

/// One line of the list of containers.
pub struct PsRow {
    pub id: String,
    pub names: String,
    pub ports: String,
    pub status: String,
    pub size: String,
    pub image: String,
    pub nets: String,
}

/// What a line shows: the seven cells in the order of the columns.
pub ghost struct PsLine {
    pub id: Seq<char>,
    pub names: Seq<char>,
    pub ports: Seq<char>,
    pub status: Seq<char>,
    pub size: Seq<char>,
    pub image: Seq<char>,
    pub nets: Seq<char>,
}

impl View for PsRow {
    type V = PsLine;

    open spec fn view(&self) -> PsLine {
        PsLine {
            id: self.id@,
            names: self.names@,
            ports: self.ports@,
            status: self.status@,
            size: self.size@,
            image: self.image@,
            nets: self.nets@,
        }
    }
}

/// The columns of a line, each under its header.
pub open spec fn line_fields(line: PsLine) -> Seq<Field> {
    seq![
        Field { name: "id"@, text: line.id },
        Field { name: "names"@, text: line.names },
        Field { name: "ports"@, text: line.ports },
        Field { name: "status"@, text: line.status },
        Field { name: "size"@, text: line.size },
        Field { name: "image"@, text: line.image },
        Field { name: "nets"@, text: line.nets },
    ]
}

impl TableRow for PsRow {
    open spec fn fields(&self) -> Seq<Field> {
        line_fields(self@)
    }

    fn columns(&self) -> (cols: Vec<Column>) {
        let mut cols: Vec<Column> = Vec::new();
        cols.push(Column::of_text("id", self.id.as_str()));
        cols.push(Column::of_text("names", self.names.as_str()));
        cols.push(Column::of_text("ports", self.ports.as_str()));
        cols.push(Column::of_text("status", self.status.as_str()));
        cols.push(Column::of_text("size", self.size.as_str()));
        cols.push(Column::of_text("image", self.image.as_str()));
        cols.push(Column::of_text("nets", self.nets.as_str()));
        cols
    }
}

/// A line that shows a port and nothing else.
pub open spec fn port_line(port: Port) -> PsLine {
    PsLine {
        id: Seq::empty(),
        names: Seq::empty(),
        ports: port_text(port),
        status: Seq::empty(),
        size: Seq::empty(),
        image: Seq::empty(),
        nets: Seq::empty(),
    }
}

/// The names joined by a comma and a space; nothing where there are none.
pub open spec fn listed_names(names: Option<Vec<String>>) -> Seq<char> {
    match names {
        Some(names) => joined_texts(texts_of(names@), ", "@),
        None => Seq::empty(),
    }
}

/// A container may be listed if its image id is known whenever its image
/// is.
pub open spec fn listable(container: Container) -> bool {
    container.image is Some ==> container.image_id is Some
}

/// The first line of a container: the start of its id, its names, its
/// first port, its status, the size of its file system, its image with the
/// start of the image's id, and its networks.
pub open spec fn container_line(container: Container) -> PsLine {
    PsLine {
        id: match container.id {
            Some(id) => window(id@, 0, ID_LENGTH as nat),
            None => Seq::empty(),
        },
        names: listed_names(container.names),
        ports: match container.ports {
            Some(ports) => if ports@.len() > 0 {
                port_text(ports@[0])
            } else {
                Seq::empty()
            },
            None => Seq::empty(),
        },
        status: match container.status {
            Some(status) => status@,
            None => Seq::empty(),
        },
        size: match container.size_root_fs {
            Some(size) => decimal(size as int),
            None => Seq::empty(),
        },
        image: match (container.image, container.image_id) {
            (Some(image), Some(id)) => image@.push('/') + window(
                id@,
                IMAGE_ID_PREFIX_LENGTH as nat,
                ID_LENGTH as nat,
            ),
            _ => Seq::empty(),
        },
        nets: listed_names(container.networks),
    }
}

/// The lines of a container: its first line, then one line for each of its
/// ports after the first.
pub open spec fn container_lines(container: Container) -> Seq<PsLine> {
    let more = match container.ports {
        Some(ports) => if ports@.len() > 1 {
            ports@.subrange(1, ports@.len() as int).map_values(|p: Port| port_line(p))
        } else {
            Seq::empty()
        },
        None => Seq::empty(),
    };
    seq![container_line(container)] + more
}

/// The lines of all containers in order.
pub open spec fn container_list(containers: Seq<Container>) -> Seq<PsLine>
    decreases containers.len(),
{
    if containers.len() == 0 {
        Seq::empty()
    } else {
        container_list(containers.drop_last()) + container_lines(containers.last())
    }
}

/// The lines that the rows show.
pub open spec fn lines_of(rows: Seq<PsRow>) -> Seq<PsLine> {
    rows.map_values(|r: PsRow| r@)
}

fn or_empty(text: &Option<String>) -> (r: String)
    ensures
        r@ == match *text {
            Some(s) => s@,
            None => Seq::empty(),
        },
{
    match text {
        Some(s) => s.clone(),
        None => String::new(),
    }
}

fn names_text(names: &Option<Vec<String>>) -> (r: String)
    ensures
        r@ == listed_names(*names),
{
    match names {
        Some(names) => join(names, ", "),
        None => String::new(),
    }
}

fn port_row(port: &Port) -> (row: PsRow)
    ensures
        row@ == port_line(*port),
{
    PsRow {
        id: String::new(),
        names: String::new(),
        ports: format_port(port),
        status: String::new(),
        size: String::new(),
        image: String::new(),
        nets: String::new(),
    }
}

/// Appends the rows of one container to `rows`.
fn push_container_rows(rows: &mut Vec<PsRow>, container: &Container)
    requires
        listable(*container),
    ensures
        lines_of(final(rows)@) == lines_of(old(rows)@) + container_lines(*container),
{
    let id = match &container.id {
        Some(id) => chars_window(id.as_str(), 0, ID_LENGTH),
        None => String::new(),
    };
    let ports = match &container.ports {
        Some(ports) => if ports.len() > 0 {
            format_port(&ports[0])
        } else {
            String::new()
        },
        None => String::new(),
    };
    let size = match container.size_root_fs {
        Some(size) => signed_text(size),
        None => String::new(),
    };
    let image = match (&container.image, &container.image_id) {
        (Some(image), Some(image_id)) => {
            let mut text = image.clone();
            text.push('/');
            let short = chars_window(image_id.as_str(), IMAGE_ID_PREFIX_LENGTH, ID_LENGTH);
            text.append(short.as_str());
            text
        },
        _ => String::new(),
    };
    let row = PsRow {
        id,
        names: names_text(&container.names),
        ports,
        status: or_empty(&container.status),
        size,
        image,
        nets: names_text(&container.networks),
    };
    assert(row@ == container_line(*container));
    let ghost before = lines_of(rows@);
    rows.push(row);
    assert(lines_of(rows@) =~= before + seq![container_line(*container)]);
    match &container.ports {
        Some(ports) => {
            if ports.len() > 1 {
                let ghost first = lines_of(rows@);
                let mut i: usize = 1;
                assert(ports@.subrange(1, 1).map_values(|p: Port| port_line(p)) =~= Seq::<
                    PsLine,
                >::empty());
                while i < ports.len()
                    invariant
                        1 <= i <= ports@.len(),
                        lines_of(rows@) == first + ports@.subrange(1, i as int).map_values(
                            |p: Port| port_line(p),
                        ),
                    decreases ports@.len() - i,
                {
                    let ghost so_far = lines_of(rows@);
                    rows.push(port_row(&ports[i]));
                    assert(lines_of(rows@) =~= so_far.push(port_line(ports@[i as int])));
                    assert(ports@.subrange(1, i + 1).map_values(|p: Port| port_line(p))
                        =~= ports@.subrange(1, i as int).map_values(|p: Port| port_line(p)).push(
                        port_line(ports@[i as int]),
                    ));
                    i = i + 1;
                }
            }
            assert(lines_of(rows@) =~= before + container_lines(*container));
        },
        None => {
            assert(lines_of(rows@) =~= before + container_lines(*container));
        },
    }
}

/// Every container of the list may be listed.
pub open spec fn all_listable(containers: Seq<Container>) -> bool {
    forall|i: int| 0 <= i < containers.len() ==> listable(#[trigger] containers[i])
}

impl Container {
    /// Whether the container may be listed: whether its image id is known
    /// if its image is.
    pub fn is_listable(&self) -> (r: bool)
        ensures
            r == listable(*self),
    {
        match (&self.image, &self.image_id) {
            (Some(_), None) => false,
            _ => true,
        }
    }
}

/// The rows of the list of containers: for each container its first line,
/// followed by one line for each further port.
///
/// Gives `None` exactly when some container has an image without an
/// image id.
pub fn ps_rows(containers: &Vec<Container>) -> (r: Option<Vec<PsRow>>)
    ensures
        match r {
            Some(rows) => all_listable(containers@) && lines_of(rows@) == container_list(
                containers@,
            ),
            None => !all_listable(containers@),
        },
{
    let mut rows: Vec<PsRow> = Vec::new();
    let mut i: usize = 0;
    assert(containers@.take(0) =~= Seq::empty());
    assert(lines_of(rows@) =~= Seq::empty());
    while i < containers.len()
        invariant
            i <= containers@.len(),
            all_listable(containers@.take(i as int)),
            lines_of(rows@) == container_list(containers@.take(i as int)),
        decreases containers@.len() - i,
    {
        if !containers[i].is_listable() {
            assert(!listable(containers@[i as int]));
            return None;
        }
        proof {
            assert(containers@.take(i + 1).drop_last() =~= containers@.take(i as int));
            assert(containers@.take(i + 1).last() == containers@[i as int]);
            assert forall|k: int| 0 <= k < i + 1 implies listable(
                #[trigger] containers@.take(i + 1)[k],
            ) by {
                if k < i {
                    assert(containers@.take(i as int)[k] == containers@.take(i + 1)[k]);
                }
            }
        }
        push_container_rows(&mut rows, &containers[i]);
        i = i + 1;
    }
    assert(containers@.take(containers@.len() as int) =~= containers@);
    Some(rows)
}

/// The table that the lines make.
pub open spec fn lines_table(lines: Seq<PsLine>) -> Seq<Seq<Field>> {
    lines.map_values(|line: PsLine| line_fields(line))
}

/// The list of containers as a table, with four spaces after each column.
///
/// Gives `None` exactly when some container has an image without an
/// image id.
pub fn ps_table(containers: &Vec<Container>) -> (r: Option<String>)
    ensures
        match r {
            Some(text) => all_listable(containers@) && text@ == render(
                lines_table(container_list(containers@)),
                4,
            ),
            None => !all_listable(containers@),
        },
{
    match ps_rows(containers) {
        Some(rows) => {
            assert(table_of(rows@) =~= lines_table(lines_of(rows@)));
            Some(Renderer::default().to_string(rows.as_slice()))
        },
        None => None,
    }
}

} // verus!
