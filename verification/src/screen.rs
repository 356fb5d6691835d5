//! What the browser draws: the lines of each pane and popup, and where popups go.
use vstd::prelude::*;

use crate::app::{confirm_plugins, confirm_title, family_members, selected_of, App, ConfirmAction, Notice};
use crate::cache::{format_unix_time, unix_time_text};
use crate::plugin::{format_label, scope_label, summary_text, title_text, Plugin, PluginView};
use crate::text::{decimal, owned, push_decimal, push_str};

verus! {

/// How a piece of text is styled on screen.
#[derive(Clone, Copy, PartialEq, Eq, Structural, Debug)]
pub enum Tone {
    /// Default style.
    Plain,
    /// Bold.
    Strong,
    /// Cyan: the format tag in the plugin list.
    Tag,
    /// Dark gray: secondary text.
    Muted,
    /// Yellow: labels, key names and hints.
    Accent,
    /// Red and bold: the key that confirms a deletion.
    Danger,
    /// Green and bold: the key that cancels a deletion.
    Safe,
}

/// A run of text in one style.
pub struct Span {
    pub text: String,
    pub tone: Tone,
}

/// One line on screen.
pub struct ScreenLine {
    pub spans: Vec<Span>,
}

/// A span as its text and style.
pub open spec fn span_view(s: Span) -> (Seq<char>, Tone) {
    (s.text@, s.tone)
}

/// A line as the texts and styles of its spans.
pub open spec fn line_view(l: ScreenLine) -> Seq<(Seq<char>, Tone)> {
    l.spans@.map_values(|s: Span| span_view(s))
}

/// Lines as the texts and styles of their spans.
pub open spec fn lines_view(ls: Seq<ScreenLine>) -> Seq<Seq<(Seq<char>, Tone)>> {
    ls.map_values(|l: ScreenLine| line_view(l))
}

/// A line of one span.
pub open spec fn single(text: Seq<char>, tone: Tone) -> Seq<(Seq<char>, Tone)> {
    seq![(text, tone)]
}

/// A line "LABEL: VALUE" with the label highlighted.
pub open spec fn labeled(label: Seq<char>, value: Seq<char>) -> Seq<(Seq<char>, Tone)> {
    seq![(label + ": "@, Tone::Accent), (value, Tone::Plain)]
}

/// A line of one span.
pub fn single_line(text: String, tone: Tone) -> (l: ScreenLine)
    ensures
        line_view(l) == single(text@, tone),
{
    let mut spans: Vec<Span> = Vec::new();
    spans.push(Span { text, tone });
    let l = ScreenLine { spans };
    assert(line_view(l) =~= single(text@, tone));
    l
}

/// A line "LABEL: VALUE" with the label highlighted.
pub fn labeled_line(label: &str, value: String) -> (l: ScreenLine)
    ensures
        line_view(l) == labeled(label@, value@),
{
    let mut head = owned(label);
    push_str(&mut head, ": ");
    let mut spans: Vec<Span> = Vec::new();
    spans.push(Span { text: head, tone: Tone::Accent });
    spans.push(Span { text: value, tone: Tone::Plain });
    let l = ScreenLine { spans };
    assert(line_view(l) =~= labeled(label@, value@));
    l
}

/// A version, or "unknown".
pub open spec fn version_or_unknown(v: Option<Seq<char>>) -> Seq<char> {
    match v {
        Some(x) => x,
        None => "unknown"@,
    }
}

/// A modification time, or "unknown".
pub open spec fn modified_or_unknown(m: Option<u64>) -> Seq<char> {
    match m {
        Some(t) => unix_time_text(t),
        None => "unknown"@,
    }
}

/// The two lines that list a related plugin in the details pane.
pub open spec fn related_lines(c: PluginView) -> Seq<Seq<(Seq<char>, Tone)>> {
    seq![
        single("- "@ + c.name + " - "@ + format_label(c.format) + " - "@ + scope_label(c.scope) + " - "@ + version_or_unknown(c.version), Tone::Plain),
        single("  "@ + c.path, Tone::Muted),
    ]
}

/// The details pane for the highlighted plugin `p` and its family `related`.
pub open spec fn plugin_details(p: PluginView, related: Seq<Plugin>) -> Seq<Seq<(Seq<char>, Tone)>> {
    seq![
        single(title_text(p), Tone::Strong),
        single(""@, Tone::Plain),
        labeled("Format"@, format_label(p.format)),
        labeled("Scope"@, scope_label(p.scope)),
        labeled("Version"@, version_or_unknown(p.version)),
        labeled("Modified"@, modified_or_unknown(p.modified)),
        labeled("Path"@, p.path),
        single(""@, Tone::Plain),
        single("Related versions"@, Tone::Strong),
    ] + related.map_values(|c: Plugin| related_lines(c@)).flatten() + seq![
        single(""@, Tone::Plain),
        single("Delete selected removes only the highlighted bundle."@, Tone::Plain),
        single("Delete related removes every matching VST2/VST3/AU bundle shown above."@, Tone::Plain),
        single("System plugins under /Library may require elevated permissions."@, Tone::Plain),
    ]
}

/// The details pane of the browser.
pub open spec fn details_text(a: App) -> Seq<Seq<(Seq<char>, Tone)>> {
    match selected_of(a) {
        None => seq![
            single("No audio plugins found."@, Tone::Plain),
            single(""@, Tone::Plain),
            single("Press r to scan standard macOS VST and Audio Unit locations."@, Tone::Plain),
        ],
        Some(p) => plugin_details(p@, family_members(a.plugins@, p.family@)),
    }
}

fn push_line(lines: &mut Vec<ScreenLine>, l: ScreenLine)
    ensures
        lines_view(final(lines)@) == lines_view(old(lines)@).push(line_view(l)),
{
    lines.push(l);
    assert(lines_view(lines@) =~= lines_view(old(lines)@).push(line_view(l)));
}

fn push_related(lines: &mut Vec<ScreenLine>, related: &Vec<Plugin>)
    ensures
        lines_view(final(lines)@) == lines_view(old(lines)@) + related@.map_values(|c: Plugin| related_lines(c@)).flatten(),
{
    let ghost f = |c: Plugin| related_lines(c@);
    let ghost start = lines_view(lines@);
    let mut i: usize = 0;
    while i < related.len()
        invariant
            i <= related@.len(),
            f == (|c: Plugin| related_lines(c@)),
            lines_view(lines@) == start + related@.take(i as int).map_values(f).flatten(),
        decreases related@.len() - i,
    {
        let c = &related[i];
        let mut text = owned("- ");
        push_str(&mut text, c.name.as_str());
        push_str(&mut text, " - ");
        push_str(&mut text, c.format.label().as_str());
        push_str(&mut text, " - ");
        push_str(&mut text, c.scope.label().as_str());
        push_str(&mut text, " - ");
        match &c.version {
            Some(v) => push_str(&mut text, v.as_str()),
            None => push_str(&mut text, "unknown"),
        }
        push_line(lines, single_line(text, Tone::Plain));
        let mut path = owned("  ");
        push_str(&mut path, c.path.as_str());
        push_line(lines, single_line(path, Tone::Muted));
        proof {
            assert(related@.take(i + 1).map_values(f) == related@.take(i as int).map_values(f).push(f(*c)));
            related@.take(i as int).map_values(f).lemma_flatten_push(f(*c));
            assert(lines_view(lines@) =~= start + related@.take(i + 1).map_values(f).flatten());
        }
        i += 1;
    }
    assert(related@.take(related@.len() as int) == related@);
}

impl App {
    /// The lines of the details pane.
    pub fn details_lines(&self) -> (lines: Vec<ScreenLine>)
        ensures
            lines_view(lines@) == details_text(*self),
    {
        let mut lines: Vec<ScreenLine> = Vec::new();
        let plugin = match self.selected_plugin() {
            Some(p) => p,
            None => {
                push_line(&mut lines, single_line(owned("No audio plugins found."), Tone::Plain));
                push_line(&mut lines, single_line(owned(""), Tone::Plain));
                push_line(&mut lines, single_line(owned("Press r to scan standard macOS VST and Audio Unit locations."), Tone::Plain));
                assert(lines_view(lines@) =~= details_text(*self));
                return lines;
            },
        };
        let related = self.related_plugins(plugin);
        let ghost head_start = lines_view(lines@);
        push_line(&mut lines, single_line(plugin.title(), Tone::Strong));
        push_line(&mut lines, single_line(owned(""), Tone::Plain));
        push_line(&mut lines, labeled_line("Format", plugin.format.label()));
        push_line(&mut lines, labeled_line("Scope", plugin.scope.label()));
        let version = match &plugin.version {
            Some(v) => v.clone(),
            None => owned("unknown"),
        };
        push_line(&mut lines, labeled_line("Version", version));
        let modified = match plugin.modified {
            Some(t) => format_unix_time(t),
            None => owned("unknown"),
        };
        push_line(&mut lines, labeled_line("Modified", modified));
        push_line(&mut lines, labeled_line("Path", plugin.path.clone()));
        push_line(&mut lines, single_line(owned(""), Tone::Plain));
        push_line(&mut lines, single_line(owned("Related versions"), Tone::Strong));
        let ghost head = lines_view(lines@);
        push_related(&mut lines, &related);
        let ghost middle = lines_view(lines@);
        push_line(&mut lines, single_line(owned(""), Tone::Plain));
        push_line(&mut lines, single_line(owned("Delete selected removes only the highlighted bundle."), Tone::Plain));
        push_line(&mut lines, single_line(owned("Delete related removes every matching VST2/VST3/AU bundle shown above."), Tone::Plain));
        push_line(&mut lines, single_line(owned("System plugins under /Library may require elevated permissions."), Tone::Plain));
        assert(lines_view(lines@) =~= details_text(*self));
        lines
    }
}

// ---------------------------------------------------------------------------
// Popups
// ---------------------------------------------------------------------------

/// How many plugins a confirmation lists before summing up the rest.
pub const CONFIRM_LISTED: usize = 8;

/// The two lines that list a plugin in a confirmation.
pub open spec fn confirm_plugin_lines(p: PluginView) -> Seq<Seq<(Seq<char>, Tone)>> {
    seq![
        single("- "@ + p.name + " - "@ + format_label(p.format) + " - "@ + scope_label(p.scope), Tone::Plain),
        single("  "@ + p.path, Tone::Muted),
    ]
}

/// The line that says which keys confirm or cancel.
pub open spec fn confirm_keys_line() -> Seq<(Seq<char>, Tone)> {
    seq![("y"@, Tone::Danger), (" delete permanently, "@, Tone::Plain), ("n"@, Tone::Safe), (" cancel"@, Tone::Plain)]
}

/// The text of a confirmation: the question, the family for a family
/// deletion, the first plugins, how many more there are, and the keys.
pub open spec fn confirm_text(c: ConfirmAction) -> Seq<Seq<(Seq<char>, Tone)>> {
    let all = confirm_plugins(c);
    let shown = if all.len() > CONFIRM_LISTED { all.take(CONFIRM_LISTED as int) } else { all };
    seq![single(confirm_title(c), Tone::Strong), single(""@, Tone::Plain)]
        + match c {
            ConfirmAction::DeleteFamily { family, .. } => seq![labeled("Family"@, family@), single(""@, Tone::Plain)],
            ConfirmAction::DeleteSelected(_) => Seq::empty(),
        }
        + shown.map_values(|p: Plugin| confirm_plugin_lines(p@)).flatten()
        + if all.len() > CONFIRM_LISTED {
            seq![single("...and "@ + decimal((all.len() - CONFIRM_LISTED) as nat) + " more"@, Tone::Plain)]
        } else {
            Seq::empty()
        }
        + seq![single(""@, Tone::Plain), confirm_keys_line()]
}

/// The lines of the confirmation popup.
pub fn confirm_lines(confirm: &ConfirmAction) -> (lines: Vec<ScreenLine>)
    ensures
        lines_view(lines@) == confirm_text(*confirm),
{
    let mut lines: Vec<ScreenLine> = Vec::new();
    push_line(&mut lines, single_line(owned(confirm.title()), Tone::Strong));
    push_line(&mut lines, single_line(owned(""), Tone::Plain));
    let ghost after_title = lines_view(lines@);
    match confirm {
        ConfirmAction::DeleteFamily { family, .. } => {
            push_line(&mut lines, labeled_line("Family", family.clone()));
            push_line(&mut lines, single_line(owned(""), Tone::Plain));
        },
        ConfirmAction::DeleteSelected(_) => {},
    }
    let ghost after_family = lines_view(lines@);
    let plugins = confirm.plugins();
    let shown = if plugins.len() > CONFIRM_LISTED { CONFIRM_LISTED } else { plugins.len() };
    let ghost f = |p: Plugin| confirm_plugin_lines(p@);
    let mut i: usize = 0;
    while i < shown
        invariant
            i <= shown <= plugins@.len(),
            f == (|p: Plugin| confirm_plugin_lines(p@)),
            lines_view(lines@) == after_family + plugins@.take(i as int).map_values(f).flatten(),
        decreases shown - i,
    {
        let p = &plugins[i];
        let mut text = owned("- ");
        push_str(&mut text, p.name.as_str());
        push_str(&mut text, " - ");
        push_str(&mut text, p.format.label().as_str());
        push_str(&mut text, " - ");
        push_str(&mut text, p.scope.label().as_str());
        push_line(&mut lines, single_line(text, Tone::Plain));
        let mut path = owned("  ");
        push_str(&mut path, p.path.as_str());
        push_line(&mut lines, single_line(path, Tone::Muted));
        proof {
            assert(plugins@.take(i + 1).map_values(f) == plugins@.take(i as int).map_values(f).push(f(*p)));
            plugins@.take(i as int).map_values(f).lemma_flatten_push(f(*p));
            assert(lines_view(lines@) =~= after_family + plugins@.take(i + 1).map_values(f).flatten());
        }
        i += 1;
    }
    let ghost after_plugins = lines_view(lines@);
    if plugins.len() > CONFIRM_LISTED {
        let mut more = owned("...and ");
        push_decimal(&mut more, (plugins.len() - CONFIRM_LISTED) as u64);
        push_str(&mut more, " more");
        push_line(&mut lines, single_line(more, Tone::Plain));
    } else {
        assert(plugins@.take(shown as int) == plugins@);
    }
    let ghost after_more = lines_view(lines@);
    push_line(&mut lines, single_line(owned(""), Tone::Plain));
    let mut keys: Vec<Span> = Vec::new();
    keys.push(Span { text: owned("y"), tone: Tone::Danger });
    keys.push(Span { text: owned(" delete permanently, "), tone: Tone::Plain });
    keys.push(Span { text: owned("n"), tone: Tone::Safe });
    keys.push(Span { text: owned(" cancel"), tone: Tone::Plain });
    let keys_line = ScreenLine { spans: keys };
    assert(line_view(keys_line) =~= confirm_keys_line());
    push_line(&mut lines, keys_line);
    assert(lines_view(lines@) =~= confirm_text(*confirm));
    lines
}

/// The text of a notice: its lines, a blank line and how to dismiss it.
pub open spec fn notice_text(n: Notice) -> Seq<Seq<(Seq<char>, Tone)>> {
    n.lines@.map_values(|l: String| single(l@, Tone::Plain)) + seq![
        single(""@, Tone::Plain),
        single("Press any key to dismiss"@, Tone::Accent),
    ]
}

/// The lines of the notice popup.
pub fn notice_lines(notice: &Notice) -> (lines: Vec<ScreenLine>)
    ensures
        lines_view(lines@) == notice_text(*notice),
{
    let mut lines: Vec<ScreenLine> = Vec::new();
    let ghost f = |l: String| single(l@, Tone::Plain);
    let mut i: usize = 0;
    while i < notice.lines.len()
        invariant
            i <= notice.lines@.len(),
            f == (|l: String| single(l@, Tone::Plain)),
            lines_view(lines@) == notice.lines@.take(i as int).map_values(f),
        decreases notice.lines@.len() - i,
    {
        push_line(&mut lines, single_line(notice.lines[i].clone(), Tone::Plain));
        assert(notice.lines@.take(i + 1).map_values(f) == notice.lines@.take(i as int).map_values(f).push(f(notice.lines@[i as int])));
        i += 1;
    }
    assert(notice.lines@.take(notice.lines@.len() as int) == notice.lines@);
    push_line(&mut lines, single_line(owned(""), Tone::Plain));
    push_line(&mut lines, single_line(owned("Press any key to dismiss"), Tone::Accent));
    assert(lines_view(lines@) =~= notice_text(*notice));
    lines
}

/// The title of a notice's frame: its title with a space on each side.
pub fn notice_frame_title(notice: &Notice) -> (r: String)
    ensures
        r@ == " "@ + notice.title@ + " "@,
{
    let mut r = owned(" ");
    push_str(&mut r, notice.title.as_str());
    push_str(&mut r, " ");
    r
}

// ---------------------------------------------------------------------------
// The list and the help line
// ---------------------------------------------------------------------------

/// The two lines of a plugin in the list: format tag and title, then the summary.
pub open spec fn list_item_text(p: PluginView) -> Seq<Seq<(Seq<char>, Tone)>> {
    seq![
        seq![(format_label(p.format), Tone::Tag), (" "@, Tone::Plain), (title_text(p), Tone::Plain)],
        single(summary_text(p), Tone::Muted),
    ]
}

/// The lines of one plugin in the list.
pub fn list_item_lines(p: &Plugin) -> (lines: Vec<ScreenLine>)
    ensures
        lines_view(lines@) == list_item_text(p@),
{
    let mut spans: Vec<Span> = Vec::new();
    spans.push(Span { text: p.format.label(), tone: Tone::Tag });
    spans.push(Span { text: owned(" "), tone: Tone::Plain });
    spans.push(Span { text: p.title(), tone: Tone::Plain });
    let first = ScreenLine { spans };
    assert(line_view(first) =~= seq![(format_label(p.format), Tone::Tag), (" "@, Tone::Plain), (title_text(p@), Tone::Plain)]);
    let mut lines: Vec<ScreenLine> = Vec::new();
    push_line(&mut lines, first);
    push_line(&mut lines, single_line(p.summary(), Tone::Muted));
    assert(lines_view(lines@) =~= list_item_text(p@));
    lines
}

/// The help line: the keys, then the status.
pub open spec fn help_text(status: Seq<char>) -> Seq<(Seq<char>, Tone)> {
    seq![
        (" j/k "@, Tone::Accent),
        ("move  "@, Tone::Plain),
        (" ctrl-d/ctrl-u "@, Tone::Accent),
        ("details scroll  "@, Tone::Plain),
        (" r "@, Tone::Accent),
        ("refresh  "@, Tone::Plain),
        (" d "@, Tone::Accent),
        ("delete selected  "@, Tone::Plain),
        (" D "@, Tone::Accent),
        ("delete related  "@, Tone::Plain),
        (" q "@, Tone::Accent),
        ("quit  "@, Tone::Plain),
        (status, Tone::Muted),
    ]
}

impl App {
    /// The title of the plugin list: " Audio Plugins (N) ".
    pub fn plugin_list_title(&self) -> (r: String)
        ensures
            r@ == " Audio Plugins ("@ + decimal(self.plugins@.len()) + ") "@,
    {
        let mut r = owned(" Audio Plugins (");
        push_decimal(&mut r, self.plugins.len() as u64);
        push_str(&mut r, ") ");
        r
    }

    /// The help line at the bottom of the screen.
    pub fn help_line(&self) -> (l: ScreenLine)
        ensures
            line_view(l) == help_text(self.status@),
    {
        let mut spans: Vec<Span> = Vec::new();
        spans.push(Span { text: owned(" j/k "), tone: Tone::Accent });
        spans.push(Span { text: owned("move  "), tone: Tone::Plain });
        spans.push(Span { text: owned(" ctrl-d/ctrl-u "), tone: Tone::Accent });
        spans.push(Span { text: owned("details scroll  "), tone: Tone::Plain });
        spans.push(Span { text: owned(" r "), tone: Tone::Accent });
        spans.push(Span { text: owned("refresh  "), tone: Tone::Plain });
        spans.push(Span { text: owned(" d "), tone: Tone::Accent });
        spans.push(Span { text: owned("delete selected  "), tone: Tone::Plain });
        spans.push(Span { text: owned(" D "), tone: Tone::Accent });
        spans.push(Span { text: owned("delete related  "), tone: Tone::Plain });
        spans.push(Span { text: owned(" q "), tone: Tone::Accent });
        spans.push(Span { text: owned("quit  "), tone: Tone::Plain });
        spans.push(Span { text: self.status.clone(), tone: Tone::Muted });
        let l = ScreenLine { spans };
        assert(line_view(l) =~= help_text(self.status@));
        l
    }

    /// Keeps the details scroll within the text of `line_count` lines shown in
    /// a pane `area_height` rows tall (two rows are its border), and returns
    /// the largest scroll allowed.
    pub fn clamp_details_scroll(&mut self, line_count: usize, area_height: u16) -> (max_scroll: usize)
        ensures
            max_scroll == if line_count + 2 > area_height { if area_height < 2 { line_count as int } else { line_count - (area_height - 2) } } else { 0 },
            final(self).details_scroll == if old(self).details_scroll < max_scroll { old(self).details_scroll as int } else { max_scroll as int },
            final(self).plugins == old(self).plugins,
            final(self).roots == old(self).roots,
            final(self).selected == old(self).selected,
            final(self).list_selection == old(self).list_selection,
            final(self).status == old(self).status,
            final(self).confirm == old(self).confirm,
            final(self).notice == old(self).notice,
            final(self).cache_generated_at == old(self).cache_generated_at,
    {
        let inner = area_height.saturating_sub(2) as usize;
        let max_scroll = line_count.saturating_sub(inner);
        if self.details_scroll > max_scroll {
            self.details_scroll = max_scroll;
        }
        max_scroll
    }
}

} // verus!
