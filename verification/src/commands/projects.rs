//! The text listing of `projects list`.

use vstd::prelude::*;

use crate::commands::entries::{client_part, find_client};
use crate::models::{archived_marker, id_name_line, Client, Project};
use crate::text::{push_char, push_dec_i64};

verus! {

broadcast use vstd::string::group_string_axioms;

/// `#<id> <name>[ [client]][ (archived)]`: one line of the project listing.
pub open spec fn project_list_line_spec(p: Project, clients: Seq<Client>) -> Seq<char> {
    id_name_line(p.id.0, p.name@) + client_part(p.client_id, clients) + archived_marker(p.active)
}

/// One line of the project listing: the project with the name of its client
/// (when the client is in the list given) and the archived marker.
pub fn project_list_line(p: &Project, clients: &Vec<Client>) -> (s: String)
    ensures
        s@ == project_list_line_spec(*p, clients@),
{
    let mut s = String::new();
    push_char(&mut s, '#');
    push_dec_i64(&mut s, p.id.0);
    push_char(&mut s, ' ');
    s.append(p.name.as_str());
    match p.client_id {
        Some(c) => match find_client(clients, c.0) {
            Some(k) => {
                s.append(" [");
                s.append(clients[k].name.as_str());
                s.append("]");
            },
            None => {},
        },
        None => {},
    }
    if !p.active {
        s.append(" (archived)");
    }
    assert(s@ =~= project_list_line_spec(*p, clients@));
    s
}

} // verus!
