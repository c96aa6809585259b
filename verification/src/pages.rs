//! The server page's form and the settings page: what each key does to them,
//! and the texts they show afterwards.

use vstd::prelude::*;
use vstd::string::*;

use crate::keys::{Key, KeyInput};
use crate::text::{concat, pop_char, push_char};

verus! {

/// The server page: the three text fields, the selected field (0 URL,
/// 1 user, 2 password, 3 the test button, 4 the save button) and the status line.
pub struct ServerForm {
    pub base_url: String,
    pub username: String,
    pub password: String,
    pub selected_field: usize,
    pub status: Option<String>,
}

/// What the server page asks the application to do after a key.
#[derive(Debug, Clone)]
pub enum ServerAction {
    Nothing,
    /// Test a connection with these settings.
    TestConnection { base_url: String, username: String, password: String },
    /// Save these settings and connect with them.
    SaveConfig { base_url: String, username: String, password: String },
}

/// A text field after a key typed into it: a character is appended,
/// Backspace removes the last one.
pub open spec fn edited_text(text: Seq<char>, key: Key) -> Seq<char> {
    match key {
        Key::Char(c) => text.push(c),
        Key::Backspace => if text.len() > 0 { text.drop_last() } else { text },
        _ => text,
    }
}

/// Whether a key edits text.
pub open spec fn is_edit_key(key: Key) -> bool {
    key is Char || key is Backspace
}

/// The field selected after a navigation key: Up and Down move within the
/// five fields, Tab moves to the next one and wraps around.
pub open spec fn field_after(field: usize, key: Key) -> int {
    match key {
        Key::Up => if field > 0 { field - 1 } else { field as int },
        Key::Down => if field < 4 { field + 1 } else { field as int },
        Key::Tab => (field + 1) % 5,
        _ => field as int,
    }
}

fn edit_field(text: &mut String, key: Key)
    requires
        is_edit_key(key),
    ensures
        final(text)@ == edited_text(old(text)@, key),
{
    match key {
        Key::Char(c) => push_char(text, c),
        _ => {
            let _ = pop_char(text);
        },
    }
}

/// Handles a key on the server page. Up, Down and Tab move between fields;
/// on a text field (0 to 2) a character or Backspace edits exactly that
/// field; Enter on the test button starts a connection test, on the save
/// button a save; nothing else happens.
pub fn server_key_step(form: &mut ServerForm, key: KeyInput) -> (action: ServerAction)
    ensures
        final(form).selected_field == field_after(old(form).selected_field, key.code),
        ({
            let field = old(form).selected_field;
            let edits = field <= 2 && is_edit_key(key.code);
            &&& final(form).base_url@ == if edits && field == 0 {
                edited_text(old(form).base_url@, key.code)
            } else {
                old(form).base_url@
            }
            &&& final(form).username@ == if edits && field == 1 {
                edited_text(old(form).username@, key.code)
            } else {
                old(form).username@
            }
            &&& final(form).password@ == if edits && field == 2 {
                edited_text(old(form).password@, key.code)
            } else {
                old(form).password@
            }
        }),
        key.code == Key::Enter && old(form).selected_field == 3 ==> {
            &&& final(form).status matches Some(s) && s@ == "Testing connection..."@
            &&& action matches ServerAction::TestConnection { base_url, username, password }
                && base_url@ == old(form).base_url@ && username@ == old(form).username@
                && password@ == old(form).password@
        },
        key.code == Key::Enter && old(form).selected_field == 4 ==> {
            &&& final(form).status == old(form).status
            &&& action matches ServerAction::SaveConfig { base_url, username, password }
                && base_url@ == old(form).base_url@ && username@ == old(form).username@
                && password@ == old(form).password@
        },
        !(key.code == Key::Enter && (old(form).selected_field == 3 || old(form).selected_field == 4)) ==> {
            &&& final(form).status == old(form).status
            &&& action is Nothing
        },
{
    let field = form.selected_field;
    match key.code {
        Key::Up => {
            if field > 0 {
                form.selected_field = field - 1;
            }
            ServerAction::Nothing
        },
        Key::Down => {
            if field < 4 {
                form.selected_field = field + 1;
            }
            ServerAction::Nothing
        },
        Key::Tab => {
            form.selected_field = if field < 4 { field + 1 } else if field == 4 { 0 } else { ((field % 5) + 1) % 5 };
            ServerAction::Nothing
        },
        Key::Char(_) | Key::Backspace => {
            if field == 0 {
                edit_field(&mut form.base_url, key.code);
            } else if field == 1 {
                edit_field(&mut form.username, key.code);
            } else if field == 2 {
                edit_field(&mut form.password, key.code);
            }
            ServerAction::Nothing
        },
        Key::Enter => {
            if field == 3 {
                form.status = Some(String::from_str("Testing connection..."));
                ServerAction::TestConnection {
                    base_url: form.base_url.clone(),
                    username: form.username.clone(),
                    password: form.password.clone(),
                }
            } else if field == 4 {
                ServerAction::SaveConfig {
                    base_url: form.base_url.clone(),
                    username: form.username.clone(),
                    password: form.password.clone(),
                }
            } else {
                ServerAction::Nothing
            }
        },
        _ => ServerAction::Nothing,
    }
}

/// How a connection test ended.
#[derive(Debug, Clone)]
pub enum ConnectionOutcome {
    Connected,
    /// The server did not answer the ping; the error's text.
    Failed(String),
    /// The address is not a valid URL; the error's text.
    InvalidUrl(String),
}

/// The status line after a connection test.
pub fn connection_status(outcome: &ConnectionOutcome) -> (status: String)
    ensures
        status@ == match *outcome {
            ConnectionOutcome::Connected => "Connection successful!"@,
            ConnectionOutcome::Failed(e) => "Connection failed: "@ + e@,
            ConnectionOutcome::InvalidUrl(e) => "Invalid URL: "@ + e@,
        },
{
    match outcome {
        ConnectionOutcome::Connected => String::from_str("Connection successful!"),
        ConnectionOutcome::Failed(e) => concat("Connection failed: ", e.as_str()),
        ConnectionOutcome::InvalidUrl(e) => concat("Invalid URL: ", e.as_str()),
    }
}

/// How saving the server settings went.
#[derive(Debug, Clone)]
pub enum SaveOutcome {
    /// Writing the configuration failed; the error's text.
    SaveFailed(String),
    /// Saved; connecting with the new settings.
    Saved,
    /// Connected with the new settings and loaded the library.
    Loaded,
    /// Saved, but the client could not be created; the error's text.
    ConnectFailed(String),
}

/// The status line after saving the server settings.
pub fn save_status(outcome: &SaveOutcome) -> (status: String)
    ensures
        status@ == match *outcome {
            SaveOutcome::SaveFailed(e) => "Save failed: "@ + e@,
            SaveOutcome::Saved => "Saved! Connecting..."@,
            SaveOutcome::Loaded => "Connected and loaded data!"@,
            SaveOutcome::ConnectFailed(e) => "Saved but connection failed: "@ + e@,
        },
{
    match outcome {
        SaveOutcome::SaveFailed(e) => concat("Save failed: ", e.as_str()),
        SaveOutcome::Saved => String::from_str("Saved! Connecting..."),
        SaveOutcome::Loaded => String::from_str("Connected and loaded data!"),
        SaveOutcome::ConnectFailed(e) => concat("Saved but connection failed: ", e.as_str()),
    }
}

/// The settings page: the selected field (0 theme, 1 visualizer), the
/// current theme among `theme_count`, and the visualizer switch.
pub struct SettingsView {
    pub selected_field: usize,
    pub theme_index: usize,
    pub theme_count: usize,
    pub cava_enabled: bool,
    pub cava_available: bool,
}

/// Keys that move the selection up, down, to the left and to the right
/// (or activate) on the settings page.
pub open spec fn is_up(key: Key) -> bool {
    key == Key::Up || key == Key::Char('k')
}

pub open spec fn is_down(key: Key) -> bool {
    key == Key::Down || key == Key::Char('j')
}

pub open spec fn is_left(key: Key) -> bool {
    key == Key::Left || key == Key::Char('h')
}

pub open spec fn is_right(key: Key) -> bool {
    key == Key::Right || key == Key::Char('l') || key == Key::Enter || key == Key::Char(' ')
}

/// Handles a key on the settings page. Up and Down move between the two
/// fields; Left and Right (or Enter, Space) on the theme field step to the
/// previous or next theme, wrapping around; on the visualizer field they
/// switch it on or off, only when the visualizer is installed. Returns
/// whether a setting changed. Stepping through the themes needs a current
/// theme among them; moving between the fields does not.
pub fn settings_key_step(s: &mut SettingsView, key: KeyInput) -> (changed: bool)
    requires
        old(s).selected_field == 0 && (is_left(key.code) || is_right(key.code)) ==> old(s).theme_index
            < old(s).theme_count,
    ensures
        final(s).theme_count == old(s).theme_count,
        final(s).cava_available == old(s).cava_available,
        old(s).theme_index < old(s).theme_count ==> final(s).theme_index < final(s).theme_count,
        final(s).selected_field == if is_up(key.code) && old(s).selected_field > 0 {
            (old(s).selected_field - 1) as usize
        } else if is_down(key.code) && old(s).selected_field < 1 {
            (old(s).selected_field + 1) as usize
        } else {
            old(s).selected_field
        },
        ({
            let field = old(s).selected_field;
            let theme_step = field == 0 && (is_left(key.code) || is_right(key.code));
            let cava_step = field == 1 && old(s).cava_available && (is_left(key.code) || is_right(
                key.code,
            ));
            &&& changed == (theme_step || cava_step)
            &&& final(s).theme_index == if theme_step && is_left(key.code) {
                ((old(s).theme_index + old(s).theme_count - 1) % (old(s).theme_count as int)) as usize
            } else if theme_step {
                ((old(s).theme_index + 1) % (old(s).theme_count as int)) as usize
            } else {
                old(s).theme_index
            }
            &&& final(s).cava_enabled == if cava_step { !old(s).cava_enabled } else { old(s).cava_enabled }
        }),
{
    let field = s.selected_field;
    let up = match key.code { Key::Up | Key::Char('k') => true, _ => false };
    let down = match key.code { Key::Down | Key::Char('j') => true, _ => false };
    let left = match key.code { Key::Left | Key::Char('h') => true, _ => false };
    let right = match key.code {
        Key::Right | Key::Char('l') | Key::Enter | Key::Char(' ') => true,
        _ => false,
    };
    if up {
        if field > 0 {
            s.selected_field = field - 1;
        }
        false
    } else if down {
        if field < 1 {
            s.selected_field = field + 1;
        }
        false
    } else if left || right {
        if field == 0 {
            let n = s.theme_count;
            let i = s.theme_index;
            if left {
                s.theme_index = if i == 0 { n - 1 } else { i - 1 };
                proof {
                    if i == 0 {
                        vstd::arithmetic::div_mod::lemma_small_mod((n - 1) as nat, n as nat);
                    } else {
                        vstd::arithmetic::div_mod::lemma_mod_add_multiples_vanish(i - 1, n as int);
                        vstd::arithmetic::div_mod::lemma_small_mod((i - 1) as nat, n as nat);
                    }
                }
            } else {
                s.theme_index = if i + 1 == n { 0 } else { i + 1 };
                proof {
                    if i + 1 == n {
                        vstd::arithmetic::div_mod::lemma_mod_add_multiples_vanish(0, n as int);
                        vstd::arithmetic::div_mod::lemma_small_mod(0, n as nat);
                    } else {
                        vstd::arithmetic::div_mod::lemma_small_mod((i + 1) as nat, n as nat);
                    }
                }
            }
            true
        } else if field == 1 && s.cava_available {
            s.cava_enabled = !s.cava_enabled;
            true
        } else {
            false
        }
    } else {
        false
    }
}

/// The notice after the theme changed.
pub fn theme_notice(theme_name: &str) -> (notice: String)
    ensures
        notice@ == "Theme: "@ + theme_name@,
{
    concat("Theme: ", theme_name)
}

/// The notice after the visualizer was switched.
pub fn cava_notice(enabled: bool) -> (notice: String)
    ensures
        notice@ == if enabled { "Cava: On"@ } else { "Cava: Off"@ },
{
    if enabled { String::from_str("Cava: On") } else { String::from_str("Cava: Off") }
}

} // verus!
