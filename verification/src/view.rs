//! What the screen shows: the texts of tabs, rows, titles and the status bar, and which theme
//! colour marks a profile's state.

use vstd::prelude::*;
use vstd::string::*;

use crate::app::{ActiveTab, App};
use crate::files::{installed, is_installed};
use crate::profiles::{IpInfo, VpnConfig};
use crate::text::push_char;
use crate::theme::{Color, Theme};

verus! {

/// The character of a decimal digit.
pub open spec fn digit_char(d: int) -> char {
    if d == 0 {
        '0'
    } else if d == 1 {
        '1'
    } else if d == 2 {
        '2'
    } else if d == 3 {
        '3'
    } else if d == 4 {
        '4'
    } else if d == 5 {
        '5'
    } else if d == 6 {
        '6'
    } else if d == 7 {
        '7'
    } else if d == 8 {
        '8'
    } else {
        '9'
    }
}

/// The decimal form of a number, as `Display` writes it: no sign, no leading zeros.
pub open spec fn decimal_text(n: nat) -> Seq<char>
    decreases n,
{
    if n < 10 {
        seq![digit_char(n as int)]
    } else {
        decimal_text(n / 10).push(digit_char(n as int % 10))
    }
}

fn digit(d: u128) -> (c: char)
    requires
        d < 10,
    ensures
        c == digit_char(d as int),
{
    if d == 0 {
        '0'
    } else if d == 1 {
        '1'
    } else if d == 2 {
        '2'
    } else if d == 3 {
        '3'
    } else if d == 4 {
        '4'
    } else if d == 5 {
        '5'
    } else if d == 6 {
        '6'
    } else if d == 7 {
        '7'
    } else if d == 8 {
        '8'
    } else {
        '9'
    }
}

/// The decimal form of a number.
pub fn decimal(n: u128) -> (r: String)
    ensures
        r@ == decimal_text(n as nat),
    decreases n,
{
    if n < 10 {
        let mut r = String::new();
        push_char(&mut r, digit(n));
        proof {
            assert(r@ =~= seq![digit_char(n as int)]);
        }
        r
    } else {
        let mut r = decimal(n / 10);
        push_char(&mut r, digit(n % 10));
        r
    }
}

/// `n` spaces.
pub open spec fn spaces(n: nat) -> Seq<char> {
    Seq::new(n, |i: int| ' ')
}

/// The text left-aligned in a field of `width` characters, as `{:<width}` formats it: spaces
/// fill it up to the width, and a longer text stays whole.
pub open spec fn padded(s: Seq<char>, width: nat) -> Seq<char> {
    if s.len() < width {
        s + spaces((width - s.len()) as nat)
    } else {
        s
    }
}

/// The text left-aligned in a field of `width` characters.
pub fn pad_right(s: &str, width: usize) -> (r: String)
    ensures
        r@ == padded(s@, width as nat),
{
    let n = s.unicode_len();
    let mut r = s.to_owned();
    let mut k = n;
    while k < width
        invariant
            n == s@.len(),
            n <= k,
            k > n ==> k <= width,
            r@ == s@ + spaces((k - n) as nat),
        decreases width - k,
    {
        push_char(&mut r, ' ');
        proof {
            assert(spaces((k + 1 - n) as nat) =~= spaces((k - n) as nat).push(' '));
            assert(s@ + spaces((k + 1 - n) as nat) =~= (s@ + spaces((k - n) as nat)).push(' '));
        }
        k = k + 1;
    }
    proof {
        if n >= width {
            assert(spaces(0) =~= seq![]);
            assert(s@ + spaces(0) =~= s@);
        }
    }
    r
}

/// The label of a view in the header: bracketed when it is the current view.
pub open spec fn tab_label_text(number: Seq<char>, label: Seq<char>, current: bool) -> Seq<char> {
    if current {
        " ["@ + number + ": "@ + label + "] "@
    } else {
        " "@ + number + ": "@ + label + " "@
    }
}

/// The label of a view in the header.
pub fn tab_label(number: &str, label: &str, current: bool) -> (r: String)
    ensures
        r@ == tab_label_text(number@, label@, current),
{
    let mut r = if current {
        " [".to_owned()
    } else {
        " ".to_owned()
    };
    r.append(number);
    r.append(": ");
    r.append(label);
    r.append(
        if current {
            "] "
        } else {
            " "
        },
    );
    r
}

/// A view's label in the header, with the colour and weight it is drawn in.
pub struct HeaderTab {
    /// The label, bracketed when the view is the current one.
    pub text: String,
    /// The active colour for the current view, the text colour for the others.
    pub color: Color,
    /// Whether the label is drawn bold: only the current view's is.
    pub bold: bool,
}

/// The header's label for `tab`, numbered `number` and named `label`: the current view's is
/// bracketed, in the theme's active colour and bold; the others are plain, in the text colour.
pub fn header_tab(app: &App, tab: ActiveTab, number: &str, label: &str) -> (r: HeaderTab)
    ensures
        r.text@ == tab_label_text(number@, label@, app.active_tab == tab),
        r.color == if app.active_tab == tab {
            app.theme.active
        } else {
            app.theme.text
        },
        r.bold == (app.active_tab == tab),
{
    let current = app.active_tab == tab;
    let text = tab_label(number, label, current);
    if current {
        HeaderTab { text, color: app.theme.active, bold: true }
    } else {
        HeaderTab { text, color: app.theme.text, bold: false }
    }
}

/// The title of the search bar: the query being typed, or the hint and the active filter.
pub open spec fn search_title_text(searching: bool, query: Seq<char>) -> Seq<char> {
    if searching {
        " Search Filter: '"@ + query + "' [Esc: Clear] "@
    } else {
        " Filter (Press '/' to search, 'd' to set Default) | Active: "@ + query + " "@
    }
}

/// The title of the search bar.
pub fn search_title(app: &App) -> (r: String)
    ensures
        r@ == search_title_text(app.is_searching, app.search_query@),
{
    let mut r = if app.is_searching {
        " Search Filter: '".to_owned()
    } else {
        " Filter (Press '/' to search, 'd' to set Default) | Active: ".to_owned()
    };
    r.append(app.search_query.as_str());
    r.append(
        if app.is_searching {
            "' [Esc: Clear] "
        } else {
            " "
        },
    );
    r
}

/// The content of the search bar.
pub fn search_bar_text(app: &App) -> (r: String)
    ensures
        r@ == " / "@ + app.search_query@,
{
    let mut r = " / ".to_owned();
    r.append(app.search_query.as_str());
    r
}

/// The colour of the search bar's border: the search colour while a search is typed.
pub fn search_border_color(app: &App) -> (c: Color)
    ensures
        c == if app.is_searching {
            app.theme.search
        } else {
            app.theme.border
        },
{
    if app.is_searching {
        app.theme.search
    } else {
        app.theme.border
    }
}

/// One row of the profile list.
pub struct ConnectionRow {
    /// The name, left-aligned in 26 characters, with a space on each side.
    pub name: String,
    /// The connection type, left-aligned in 14 characters, with a space after it.
    pub conn_type: String,
    /// `● Active` or `○ Inactive`.
    pub status: String,
    /// The theme's active or inactive colour, after the state.
    pub status_color: Color,
    /// The profile carries the default tag.
    pub is_default: bool,
}

/// The row that shows a profile.
pub fn connection_row(vpn: &VpnConfig, theme: &Theme) -> (r: ConnectionRow)
    ensures
        r.name@ == " "@ + padded(vpn.name@, 26) + " "@,
        r.conn_type@ == padded(vpn.conn_type@, 14) + " "@,
        r.status@ == if vpn.is_active {
            "● Active"@
        } else {
            "○ Inactive"@
        },
        r.status_color == if vpn.is_active {
            theme.active
        } else {
            theme.inactive
        },
        r.is_default == vpn.is_default,
{
    let mut name = " ".to_owned();
    name.append(pad_right(vpn.name.as_str(), 26).as_str());
    name.append(" ");
    let mut conn_type = pad_right(vpn.conn_type.as_str(), 14);
    conn_type.append(" ");
    let (status, status_color) = if vpn.is_active {
        ("● Active".to_owned(), theme.active)
    } else {
        ("○ Inactive".to_owned(), theme.inactive)
    };
    ConnectionRow { name, conn_type, status, status_color, is_default: vpn.is_default }
}

/// The title of the profile list: how many profiles are shown, out of how many.
pub fn profiles_title(app: &App) -> (r: String)
    ensures
        r@ == " VPN Profiles ("@ + decimal_text(app.filtered_vpns@.len()) + "/"@ + decimal_text(
            app.vpns@.len(),
        ) + ") "@,
{
    let mut r = " VPN Profiles (".to_owned();
    r.append(decimal(app.filtered_vpns.len() as u128).as_str());
    r.append("/");
    r.append(decimal(app.vpns.len() as u128).as_str());
    r.append(") ");
    r
}

/// One row of the import list.
pub struct ImportRow {
    /// The file name, left-aligned in 32 characters, with a space after it.
    pub name: String,
    /// A profile bears the file's stem as its name.
    pub installed: bool,
    /// `✔ Installed` or `○ Ready to Import`.
    pub status: String,
    /// The theme's active colour for an installed file, its text colour otherwise.
    pub status_color: Color,
}

/// The row that shows a configuration file in the import list.
pub fn import_row(file_name: &str, vpns: &Vec<VpnConfig>, theme: &Theme) -> (r: ImportRow)
    ensures
        r.name@ == padded(file_name@, 32) + " "@,
        r.installed == installed(file_name@, vpns@),
        r.status@ == if r.installed {
            "✔ Installed"@
        } else {
            "○ Ready to Import"@
        },
        r.status_color == if r.installed {
            theme.active
        } else {
            theme.text
        },
{
    let mut name = pad_right(file_name, 32);
    name.append(" ");
    let installed = is_installed(file_name, vpns);
    let (status, status_color) = if installed {
        ("✔ Installed".to_owned(), theme.active)
    } else {
        ("○ Ready to Import".to_owned(), theme.text)
    };
    ImportRow { name, installed, status, status_color }
}

/// The length and the position that a list's scrollbar shows.
pub fn scrollbar_span(len: usize, selected: Option<usize>) -> (r: (usize, usize))
    ensures
        r.0 == if len > 0 {
            len - 1
        } else {
            0
        },
        r.1 == match selected {
            Some(i) => i,
            None => 0,
        },
{
    let content = if len > 0 {
        len - 1
    } else {
        0
    };
    let position = match selected {
        Some(i) => i,
        None => 0,
    };
    (content, position)
}

/// What the GeoIP view shows.
pub enum IpPanel {
    /// A lookup is under way.
    Fetching,
    /// The address and location of the last lookup.
    Known(IpInfo),
    /// No lookup gave an answer.
    Unavailable,
}

/// What the GeoIP view shows: a lookup under way takes precedence over a known answer.
pub fn ip_panel(app: &App) -> (p: IpPanel)
    ensures
        app.is_fetching_ip ==> p is Fetching,
        !app.is_fetching_ip && app.ip_info is Some ==> p == IpPanel::Known(app.ip_info->0),
        !app.is_fetching_ip && app.ip_info is None ==> p is Unavailable,
{
    if app.is_fetching_ip {
        IpPanel::Fetching
    } else {
        match &app.ip_info {
            Some(info) => IpPanel::Known(info.clone()),
            None => IpPanel::Unavailable,
        }
    }
}

/// The latency in the status bar: the milliseconds of the last ping, or `--`.
pub open spec fn ping_label_text(ping_ms: Option<u128>) -> Seq<char> {
    match ping_ms {
        Some(ms) => "Ping: "@ + decimal_text(ms as nat) + "ms"@,
        None => "Ping: --"@,
    }
}

/// The latency in the status bar.
pub fn ping_label(ping_ms: Option<u128>) -> (r: String)
    ensures
        r@ == ping_label_text(ping_ms),
{
    match ping_ms {
        Some(ms) => {
            let mut r = "Ping: ".to_owned();
            r.append(decimal(ms).as_str());
            r.append("ms");
            r
        },
        None => "Ping: --".to_owned(),
    }
}

/// A text in brackets followed by two spaces, as the status bar shows its first two parts.
pub fn bracketed(s: &str) -> (r: String)
    ensures
        r@ == "["@ + s@ + "]  "@,
{
    let mut r = "[".to_owned();
    r.append(s);
    r.append("]  ");
    r
}

} // verus!
