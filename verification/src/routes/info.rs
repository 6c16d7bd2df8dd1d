//! The info endpoint: a fixed description of the API.

use vstd::prelude::*;
use vstd::string::StringExecFns;
use crate::response::{Body, BodyView, Response, ResponseView};

verus! {

/// What each path of the API does.
#[derive(Clone, Debug, PartialEq, Eq)]
pub struct Paths {
    pub create: String,
    pub retrieve: String,
    pub update_album: String,
    pub update_thoughts: String,
    pub delete: String,
}

/// Whom to write to about the API.
#[derive(Clone, Debug, PartialEq, Eq)]
pub struct Contact {
    pub name: String,
    pub email: String,
}

/// The description of the API.
#[derive(Clone, Debug, PartialEq, Eq)]
pub struct InfoResponse {
    pub openapi_version: String,
    pub title: String,
    pub summary: String,
    pub description: String,
    pub terms_of_service: String,
    pub contact: Contact,
    pub version: String,
    pub paths: Paths,
}

/// `Paths` as a mathematical value.
pub struct PathsView {
    pub create: Seq<char>,
    pub retrieve: Seq<char>,
    pub update_album: Seq<char>,
    pub update_thoughts: Seq<char>,
    pub delete: Seq<char>,
}

/// `Contact` as a mathematical value.
pub struct ContactView {
    pub name: Seq<char>,
    pub email: Seq<char>,
}

/// `InfoResponse` as a mathematical value.
pub struct InfoView {
    pub openapi_version: Seq<char>,
    pub title: Seq<char>,
    pub summary: Seq<char>,
    pub description: Seq<char>,
    pub terms_of_service: Seq<char>,
    pub contact: ContactView,
    pub version: Seq<char>,
    pub paths: PathsView,
}

impl View for Paths {
    type V = PathsView;

    open spec fn view(&self) -> PathsView {
        PathsView {
            create: self.create@,
            retrieve: self.retrieve@,
            update_album: self.update_album@,
            update_thoughts: self.update_thoughts@,
            delete: self.delete@,
        }
    }
}

impl View for Contact {
    type V = ContactView;

    open spec fn view(&self) -> ContactView {
        ContactView { name: self.name@, email: self.email@ }
    }
}

impl View for InfoResponse {
    type V = InfoView;

    open spec fn view(&self) -> InfoView {
        InfoView {
            openapi_version: self.openapi_version@,
            title: self.title@,
            summary: self.summary@,
            description: self.description@,
            terms_of_service: self.terms_of_service@,
            contact: self.contact@,
            version: self.version@,
            paths: self.paths@,
        }
    }
}

/// The description of the five diary paths.
pub open spec fn api_paths() -> PathsView {
    PathsView {
        create: "/api/diary/new // adds a new entry, timestamp is automatically added (UTC time)"@,
        retrieve: "/api/diary // retrieves and displays all entries in json format"@,
        update_album: "api/diary/update/album/{id} // accepts an update to the album field, automatically adds timestamp (UTC time) of update"@,
        update_thoughts: "api/diary/update/thoughts/{id} // accepts an update to the thoughts field, automatically adds timestamp (UTC time) of update"@,
        delete: "api/diary/delete/{id} // deletes any entry by unique id"@,
    }
}

/// The description of the API.
pub open spec fn api_description() -> InfoView {
    InfoView {
        openapi_version: "3.0.0"@,
        title: "Rivet Head API"@,
        summary: "An API for tracking music listening habits"@,
        description: "This is the server API for the Rivet Head app"@,
        terms_of_service: "Coming soon..."@,
        contact: ContactView {
            name: "Jeff Mitchell"@,
            email: "crusty-rustacean@jeffmitchelldev.com"@,
        },
        version: "1.36.1"@,
        paths: api_paths(),
    }
}

/// Answers the info endpoint: status 200 and the description of the API.
pub fn info() -> (response: Response)
    ensures
        response@ == (ResponseView { status: 200, body: BodyView::Info(api_description()) }),
{
    let api_paths = Paths {
        create: String::from_str(
            "/api/diary/new // adds a new entry, timestamp is automatically added (UTC time)",
        ),
        retrieve: String::from_str(
            "/api/diary // retrieves and displays all entries in json format",
        ),
        update_album: String::from_str(
            "api/diary/update/album/{id} // accepts an update to the album field, automatically adds timestamp (UTC time) of update",
        ),
        update_thoughts: String::from_str(
            "api/diary/update/thoughts/{id} // accepts an update to the thoughts field, automatically adds timestamp (UTC time) of update",
        ),
        delete: String::from_str("api/diary/delete/{id} // deletes any entry by unique id"),
    };

    let contact_info = Contact {
        name: String::from_str("Jeff Mitchell"),
        email: String::from_str("crusty-rustacean@jeffmitchelldev.com"),
    };

    let info_response = InfoResponse {
        openapi_version: String::from_str("3.0.0"),
        title: String::from_str("Rivet Head API"),
        summary: String::from_str("An API for tracking music listening habits"),
        description: String::from_str("This is the server API for the Rivet Head app"),
        terms_of_service: String::from_str("Coming soon..."),
        contact: contact_info,
        version: String::from_str("1.36.1"),
        paths: api_paths,
    };

    Response { status: 200, body: Body::Info(info_response) }
}

/// Each of the two update routes has a line of its own: the line for the
/// album route and the line for the thoughts route differ.
pub proof fn update_lines_differ()
    ensures
        api_paths().update_album != api_paths().update_thoughts,
{
    reveal_strlit(
        "api/diary/update/album/{id} // accepts an update to the album field, automatically adds timestamp (UTC time) of update",
    );
    reveal_strlit(
        "api/diary/update/thoughts/{id} // accepts an update to the thoughts field, automatically adds timestamp (UTC time) of update",
    );
    assert(api_paths().update_album.len() != api_paths().update_thoughts.len());
}

} // verus!
