use vstd::prelude::*;
use crate::access::{idle, AccessFlag, AccessState};
use crate::auth::{
    next_auth, next_auth_spec, patch_bearer_token, patch_bearer_token_spec, patch_password,
    patch_password_spec, patch_username, patch_username_spec, Auth, AuthModel,
};
use crate::curl::{
    curl_data_raw_of, curl_parses, curl_url_of, file_stem_of, import_curl, translation, url_parses,
    CurlCommand, ImportError,
};
use crate::environment::{strip_env_marker, Environment};
use crate::request::Request;

verus! {

/// One request record of the registry, with its reader/writer exclusion.
#[derive(Debug)]
pub struct RequestSlot {
    pub request: Request,
    pub access: AccessFlag,
}

/// A named group of requests, held as indices into the registry.
#[derive(Debug)]
pub struct Collection {
    pub name: String,
    pub requests: Vec<usize>,
}

/// One step of record access taken by a handler, with the flag's state where
/// an access was granted.
pub enum AccessEvent {
    ReadGranted(int, AccessState),
    ReadReleased(int),
    WriteGranted(int, AccessState),
    AuthWritten(int),
    WriteReleased(int),
    SaveQueued(usize),
}

/// What the user interface is doing.
#[derive(Clone, Copy, Debug, PartialEq, Eq, Structural)]
pub enum AppState {
    Normal,
    SelectedRequest,
    EditingRequestAuthUsername,
    EditingRequestAuthPassword,
    EditingRequestAuthBearerToken,
    ChoosingElementToCreate,
}

/// The application's data: every request record by value, the collections that
/// refer to them, the selection, the auth text inputs, and what is left for the
/// caller to do (collections to persist, an imported request to place).
pub struct App {
    pub records: Vec<RequestSlot>,
    pub collections: Vec<Collection>,
    pub selected: Option<(usize, usize)>,
    pub state: AppState,
    pub auth_text_input_selection: usize,
    pub auth_basic_username_text_input: String,
    pub auth_basic_password_text_input: String,
    pub auth_bearer_token_text_input: String,
    pub collections_to_save: Vec<usize>,
    pub tmp_request: Option<Request>,
    pub environments: Vec<Environment>,
    /// Every record access the handlers took, in order.
    pub access_log: Ghost<Seq<AccessEvent>>,
}

/// Two requests that agree on everything but their auth.
pub open spec fn same_but_auth(a: Request, b: Request) -> bool {
    &&& a.name == b.name
    &&& a.url == b.url
    &&& a.method == b.method
    &&& a.params == b.params
    &&& a.headers == b.headers
    &&& a.body == b.body
}

impl App {
    /// Every collection entry names a record, and no access is held between operations.
    pub open spec fn wf(&self) -> bool {
        &&& forall|c: int, p: int|
            0 <= c < self.collections@.len() && 0 <= p < self.collections@[c].requests@.len()
                ==> (#[trigger] self.collections@[c].requests@[p]) < self.records@.len()
        &&& forall|k: int| 0 <= k < self.records@.len() ==> idle(#[trigger] self.records@[k].access@)
    }

    /// A request is selected, and the selection lies inside the collection tree.
    pub open spec fn selection_valid(&self) -> bool {
        &&& self.selected is Some
        &&& self.selected->Some_0.0 < self.collections@.len()
        &&& self.selected->Some_0.1 < self.collections@[self.selected->Some_0.0 as int].requests@.len()
    }

    /// The registry index of the selected request.
    pub open spec fn selected_record(&self) -> int {
        let idx = self.selected->Some_0;
        self.collections@[idx.0 as int].requests@[idx.1 as int] as int
    }

    pub open spec fn selected_auth(&self) -> AuthModel {
        self.records@[self.selected_record()].request.auth@
    }

    /// `after` is `self` where the selected record's auth became `auth`, written
    /// under a granted write access that was released before its collection was
    /// queued for saving, and nothing else about the records changed.
    pub open spec fn auth_written(&self, after: &App, auth: AuthModel) -> bool {
        let k = self.selected_record();
        &&& after.wf()
        &&& after.collections == self.collections
        &&& after.selected == self.selected
        &&& after.records@.len() == self.records@.len()
        &&& forall|j: int| 0 <= j < self.records@.len() && j != k ==> after.records@[j] == self.records@[j]
        &&& same_but_auth(after.records@[k].request, self.records@[k].request)
        &&& after.records@[k].request.auth@ == auth
        &&& after.collections_to_save@ == self.collections_to_save@.push(self.selected->Some_0.0)
        &&& after.access_log@ == self.access_log@ + seq![
            AccessEvent::WriteGranted(k, AccessState { readers: 0, writer: true }),
            AccessEvent::AuthWritten(k),
            AccessEvent::WriteReleased(k),
            AccessEvent::SaveQueued(self.selected->Some_0.0),
        ]
        &&& after.tmp_request == self.tmp_request
        &&& after.environments == self.environments
    }

    pub fn new() -> (r: App)
        ensures
            r.wf(),
            r.records@.len() == 0,
            r.collections@.len() == 0,
            r.selected is None,
            r.state == AppState::Normal,
            r.access_log@.len() == 0,
    {
        App {
            records: Vec::new(),
            collections: Vec::new(),
            selected: None,
            state: AppState::Normal,
            auth_text_input_selection: 0,
            auth_basic_username_text_input: String::new(),
            auth_basic_password_text_input: String::new(),
            auth_bearer_token_text_input: String::new(),
            collections_to_save: Vec::new(),
            tmp_request: None,
            environments: Vec::new(),
            access_log: Ghost(Seq::empty()),
        }
    }

    fn selected_index(&self) -> (r: usize)
        requires
            self.wf(),
            self.selection_valid(),
        ensures
            r == self.selected_record(),
            r < self.records@.len(),
    {
        let idx = self.selected.unwrap();
        self.collections[idx.0].requests[idx.1]
    }

    /// Writes the auth of the selected record under its write access, released
    /// before the collection is queued for saving.
    fn write_selected_auth(&mut self, auth: Auth)
        requires
            old(self).wf(),
            old(self).selection_valid(),
        ensures
            old(self).auth_written(final(self), auth@),
            final(self).state == old(self).state,
            final(self).auth_text_input_selection == old(self).auth_text_input_selection,
            final(self).auth_basic_username_text_input == old(self).auth_basic_username_text_input,
            final(self).auth_basic_password_text_input == old(self).auth_basic_password_text_input,
            final(self).auth_bearer_token_text_input == old(self).auth_bearer_token_text_input,
    {
        let k = self.selected_index();
        let collection = self.selected.unwrap().0;
        let ghost log0 = self.access_log@;
        let granted = self.records[k].access.try_write();
        if granted {
            self.access_log = Ghost(
                self.access_log@.push(AccessEvent::WriteGranted(k as int, self.records@[k as int].access@)),
            );
            self.records[k].request.auth = auth;
            self.access_log = Ghost(self.access_log@.push(AccessEvent::AuthWritten(k as int)));
            self.records[k].access.release_write();
            self.access_log = Ghost(self.access_log@.push(AccessEvent::WriteReleased(k as int)));
        }
        self.collections_to_save.push(collection);
        self.access_log = Ghost(self.access_log@.push(AccessEvent::SaveQueued(collection)));
        assert(self.access_log@ =~= log0 + seq![
            AccessEvent::WriteGranted(k as int, AccessState { readers: 0, writer: true }),
            AccessEvent::AuthWritten(k as int),
            AccessEvent::WriteReleased(k as int),
            AccessEvent::SaveQueued(collection),
        ]);
    }

    /// Moves the selected request to the next auth kind, saves its collection and
    /// clears the auth inputs.
    pub fn modify_request_auth(&mut self)
        requires
            old(self).wf(),
            old(self).selection_valid(),
        ensures
            old(self).auth_written(final(self), next_auth_spec(old(self).selected_auth())),
            final(self).state == old(self).state,
            final(self).auth_text_input_selection == 0,
            final(self).auth_basic_username_text_input@.len() == 0,
            final(self).auth_basic_password_text_input@.len() == 0,
            final(self).auth_bearer_token_text_input@.len() == 0,
    {
        let k = self.selected_index();
        let auth = next_auth(&self.records[k].request.auth);
        self.write_selected_auth(auth);
        self.auth_text_input_selection = 0;
        self.auth_basic_username_text_input = String::new();
        self.auth_basic_password_text_input = String::new();
        self.auth_bearer_token_text_input = String::new();
    }

    /// Starts editing the auth field under the input cursor, as the selected
    /// request's auth kind allows.
    pub fn select_request_auth_input_text(&mut self)
        requires
            old(self).wf(),
            old(self).selection_valid(),
        ensures
            final(self).wf(),
            final(self).records@.len() == old(self).records@.len(),
            forall|j: int| 0 <= j < old(self).records@.len() ==> (#[trigger] final(self).records@[j]).request
                == old(self).records@[j].request,
            final(self).collections == old(self).collections,
            final(self).selected == old(self).selected,
            final(self).collections_to_save == old(self).collections_to_save,
            final(self).access_log@ == old(self).access_log@ + seq![
                AccessEvent::ReadGranted(old(self).selected_record(), AccessState { readers: 1, writer: false }),
                AccessEvent::ReadReleased(old(self).selected_record()),
            ],
            final(self).state == (match (old(self).selected_auth(), old(self).auth_text_input_selection) {
                (AuthModel::BasicAuth(_, _), 0) => AppState::EditingRequestAuthUsername,
                (AuthModel::BasicAuth(_, _), 1) => AppState::EditingRequestAuthPassword,
                (AuthModel::BearerToken(_), 0) => AppState::EditingRequestAuthBearerToken,
                _ => old(self).state,
            }),
    {
        let k = self.selected_index();
        let mut next = self.state;
        let ghost log0 = self.access_log@;
        let granted = self.records[k].access.try_read();
        if granted {
            self.access_log = Ghost(
                self.access_log@.push(AccessEvent::ReadGranted(k as int, self.records@[k as int].access@)),
            );
            let sel = self.auth_text_input_selection;
            match &self.records[k].request.auth {
                Auth::NoAuth => {},
                Auth::BasicAuth(_, _) => {
                    if sel == 0 {
                        next = AppState::EditingRequestAuthUsername;
                    } else if sel == 1 {
                        next = AppState::EditingRequestAuthPassword;
                    }
                },
                Auth::BearerToken(_) => {
                    if sel == 0 {
                        next = AppState::EditingRequestAuthBearerToken;
                    }
                },
            }
            self.records[k].access.release_read();
            self.access_log = Ghost(self.access_log@.push(AccessEvent::ReadReleased(k as int)));
        }
        assert(self.access_log@ =~= log0 + seq![
            AccessEvent::ReadGranted(k as int, AccessState { readers: 1, writer: false }),
            AccessEvent::ReadReleased(k as int),
        ]);
        self.state = next;
    }

    /// Puts the username input into the selected request's basic auth.
    pub fn modify_request_auth_basic_username(&mut self)
        requires
            old(self).wf(),
            old(self).selection_valid(),
        ensures
            old(self).auth_written(
                final(self),
                patch_username_spec(old(self).selected_auth(), old(self).auth_basic_username_text_input@),
            ),
            final(self).state == AppState::SelectedRequest,
    {
        let k = self.selected_index();
        let text = self.auth_basic_username_text_input.clone();
        let auth = patch_username(&self.records[k].request.auth, text);
        self.write_selected_auth(auth);
        self.state = AppState::SelectedRequest;
    }

    /// Puts the password input into the selected request's basic auth.
    pub fn modify_request_auth_basic_password(&mut self)
        requires
            old(self).wf(),
            old(self).selection_valid(),
        ensures
            old(self).auth_written(
                final(self),
                patch_password_spec(old(self).selected_auth(), old(self).auth_basic_password_text_input@),
            ),
            final(self).state == AppState::SelectedRequest,
    {
        let k = self.selected_index();
        let text = self.auth_basic_password_text_input.clone();
        let auth = patch_password(&self.records[k].request.auth, text);
        self.write_selected_auth(auth);
        self.state = AppState::SelectedRequest;
    }

    /// Puts the token input into the selected request's bearer auth.
    pub fn modify_request_auth_bearer_token(&mut self)
        requires
            old(self).wf(),
            old(self).selection_valid(),
        ensures
            old(self).auth_written(
                final(self),
                patch_bearer_token_spec(old(self).selected_auth(), old(self).auth_bearer_token_text_input@),
            ),
            final(self).state == AppState::SelectedRequest,
    {
        let k = self.selected_index();
        let text = self.auth_bearer_token_text_input.clone();
        let auth = patch_bearer_token(&self.records[k].request.auth, text);
        self.write_selected_auth(auth);
        self.state = AppState::SelectedRequest;
    }

    /// Imports the cURL command `text`, read from the file at `path`, as the
    /// request waiting to be placed in a collection. Nothing else changes, and
    /// nothing at all on failure.
    pub fn import_curl_file(&mut self, text: &str, path: &str) -> (r: Result<(), ImportError>)
        requires
            old(self).wf(),
        ensures
            final(self).wf(),
            final(self).records == old(self).records,
            final(self).collections == old(self).collections,
            final(self).selected == old(self).selected,
            final(self).collections_to_save == old(self).collections_to_save,
            final(self).environments == old(self).environments,
            final(self).auth_text_input_selection == old(self).auth_text_input_selection,
            final(self).auth_basic_username_text_input == old(self).auth_basic_username_text_input,
            final(self).auth_basic_password_text_input == old(self).auth_basic_password_text_input,
            final(self).auth_bearer_token_text_input == old(self).auth_bearer_token_text_input,
            final(self).access_log == old(self).access_log,
            (r == Err::<(), ImportError>(ImportError::MalformedCurl)) <==> !curl_parses(text@),
            (r == Err::<(), ImportError>(ImportError::NoFileName)) <==> (curl_parses(text@)
                && file_stem_of(path@) is None),
            (r == Err::<(), ImportError>(ImportError::InvalidUrl)) <==> (curl_parses(text@)
                && file_stem_of(path@) is Some && !url_parses(curl_url_of(text@))),
            r is Err ==> final(self).tmp_request == old(self).tmp_request && final(self).state == old(
                self,
            ).state,
            r is Ok ==> final(self).state == AppState::ChoosingElementToCreate,
            r is Ok ==> (final(self).tmp_request matches Some(req) && file_stem_of(path@) == Some(
                req.name@,
            ) && exists|c: CurlCommand|
                c.url@ == curl_url_of(text@) && c.data_raw@ == curl_data_raw_of(text@) && translation(
                    c,
                    req.name@,
                    req,
                )),
    {
        match import_curl(text, path) {
            Ok(req) => {
                self.tmp_request = Some(req);
                self.state = AppState::ChoosingElementToCreate;
                Ok(())
            },
            Err(e) => Err(e),
        }
    }

    /// Appends the environment read from the file `file_name` to the environments.
    pub fn add_environment(&mut self, file_name: &str, values: Vec<(String, String)>)
        ensures
            final(self).environments@.len() == old(self).environments@.len() + 1,
            forall|i: int| 0 <= i < old(self).environments@.len() ==> final(self).environments@[i]
                == old(self).environments@[i],
            final(self).environments@.last().name@ == strip_env_marker(file_name@),
            final(self).environments@.last().values == values,
            final(self).records == old(self).records,
            final(self).collections == old(self).collections,
            final(self).state == old(self).state,
            final(self).access_log == old(self).access_log,
    {
        let env = Environment::from_file(file_name, values);
        self.environments.push(env);
    }
}

} // verus!
