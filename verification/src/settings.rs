//! What a client needs before it can connect: an identity and the server's
//! address.

use vstd::prelude::*;
use vstd::string::StringExecFns;
use crate::json::{
    lemma_object_view, members_view, printed_document, text_view, write_json, Json, JsonView,
};

verus! {

/// The identity that the client connects under and the address of the server,
/// as `host:port`. An empty value means that it was never set.
#[derive(Debug, PartialEq, Eq)]
pub struct Settings {
    pub username: String,
    pub server: String,
}

/// The mathematical value of [`Settings`].
pub struct SettingsView {
    pub username: Seq<char>,
    pub server: Seq<char>,
}

/// Why settings cannot be used to connect.
#[derive(Debug, Clone, Copy, PartialEq, Eq, Structural)]
pub enum ConfigError {
    /// The identity is empty.
    MissingIdentity,
    /// The identity is set, and the server's address is empty.
    MissingServer,
}

impl View for Settings {
    type V = SettingsView;

    open spec fn view(&self) -> SettingsView {
        SettingsView { username: self.username@, server: self.server@ }
    }
}

impl Clone for Settings {
    fn clone(&self) -> (copy: Self)
        ensures
            copy@ == self@,
    {
        Settings { username: self.username.clone(), server: self.server.clone() }
    }
}

impl SettingsView {
    /// Whether and why the settings cannot be used: the identity is looked at
    /// first.
    pub open spec fn checked(self) -> Result<(), ConfigError> {
        if self.username.len() == 0 {
            Err(ConfigError::MissingIdentity)
        } else if self.server.len() == 0 {
            Err(ConfigError::MissingServer)
        } else {
            Ok(())
        }
    }

    /// The address that the client connects to: `ws://<server>/ws/<identity>`.
    pub open spec fn target(self) -> Seq<char> {
        "ws://"@ + self.server + "/ws/"@ + self.username
    }

    /// The settings as a document: `username` and `server`, in that order.
    pub open spec fn document(self) -> JsonView {
        JsonView::Object(
            seq![
                ("username"@, JsonView::Text(self.username)),
                ("server"@, JsonView::Text(self.server)),
            ],
        )
    }
}

impl Settings {
    /// Settings with the given identity and server address.
    pub fn new(username: String, server: String) -> (settings: Self)
        ensures
            settings@ == (SettingsView { username: username@, server: server@ }),
    {
        Settings { username, server }
    }

    /// Tells whether the settings can be used to connect, and if not, why.
    pub fn check(&self) -> (checked: Result<(), ConfigError>)
        ensures
            checked == self@.checked(),
    {
        if self.username.as_str().is_empty() {
            Err(ConfigError::MissingIdentity)
        } else if self.server.as_str().is_empty() {
            Err(ConfigError::MissingServer)
        } else {
            Ok(())
        }
    }

    /// The address to connect to, or why there is none.
    pub fn connect_target(&self) -> (target: Result<String, ConfigError>)
        ensures
            match target {
                Ok(address) => self@.checked() is Ok && address@ == self@.target(),
                Err(error) => self@.checked() == Err::<(), ConfigError>(error),
            },
    {
        match self.check() {
            Err(error) => Err(error),
            Ok(()) => {
                let mut address = String::from_str("ws://");
                address.append(self.server.as_str());
                address.append("/ws/");
                address.append(self.username.as_str());
                Ok(address)
            },
        }
    }

    /// The settings as a JSON document.
    pub fn to_json(&self) -> (document: Json)
        ensures
            document@ == self@.document(),
            document@.printable(),
    {
        let members = vec![
            (String::from_str("username"), Json::Text(self.username.clone())),
            (String::from_str("server"), Json::Text(self.server.clone())),
        ];
        proof {
            lemma_object_view(members);
            assert(members_view(members@) =~= seq![
                ("username"@, JsonView::Text(self@.username)),
                ("server"@, JsonView::Text(self@.server)),
            ]);
            reveal_strlit("username");
            reveal_strlit("server");
            assert("username"@.len() == 8 && "server"@.len() == 6);
            reveal_with_fuel(JsonView::printable, 2);
        }
        Json::Object(members)
    }

    /// The settings as JSON text, as they are stored: the text that the
    /// printer gives for their document, or `None` where it gives none.
    pub fn to_json_text(&self) -> (text: Option<String>)
        ensures
            text_view(text) == printed_document(self@.document()),
    {
        let document = self.to_json();
        write_json(&document)
    }
}

} // verus!
