//! The layout of the status line: colours, the context bar, durations, and
//! the line itself.

use crate::config::{Config, CostConfig, DisplayConfig};
use crate::models::{model_of, CompactionState, ContextUsage, Cost, ModelType};
use crate::text::{
    decimal, digit_char, digit_to_char, join_parts, joined, push_decimal, push_repeated, repeated,
    string_of, text_of, trim_start, trimmed_start, views,
};
use crate::theme::{NamedColor, Theme};
use crate::utils::{
    push_token_count, sanitize_for_terminal, sanitized, shorten_path, shortened, token_count_text,
};
use vstd::prelude::*;
use vstd::string::*;

verus! {

/// The colours of the status line: a theme, and whether colour is wanted at
/// all. With colour switched off every sequence is empty.
#[derive(Debug, Clone, Copy, PartialEq, Eq, Structural)]
pub struct Colors {
    pub enabled: bool,
    pub theme: Theme,
}

/// The colour for a cost: high from the medium threshold on, medium from the
/// low threshold on, low below it.
pub open spec fn cost_level_color(theme: Theme, cost: u64, config: CostConfig) -> NamedColor {
    if cost >= config.medium_threshold {
        theme.colors.cost_high
    } else if cost >= config.low_threshold {
        theme.colors.cost_medium
    } else {
        theme.colors.cost_low
    }
}

/// The colour for a share of the context window: critical, warning and
/// caution each above their threshold, normal otherwise.
pub open spec fn context_level_color(
    theme: Theme,
    percentage: u32,
    config: DisplayConfig,
) -> NamedColor {
    if percentage > config.context_critical_threshold {
        theme.colors.context_critical
    } else if percentage > config.context_warning_threshold {
        theme.colors.context_warning
    } else if percentage > config.context_caution_threshold {
        theme.colors.context_caution
    } else {
        theme.colors.context_normal
    }
}

impl Colors {
    /// The colours for a terminal: none at all where the user asked for no
    /// colour.
    pub fn new(no_color: bool, theme: Theme) -> (c: Colors)
        ensures
            c.enabled == !no_color,
            c.theme == theme,
    {
        Colors { enabled: !no_color, theme }
    }

    /// Whether colour is wanted.
    pub fn enabled(&self) -> (b: bool)
        ensures
            b == self.enabled,
    {
        self.enabled
    }

    /// The sequence to print for `code`: the code itself, or nothing where
    /// colour is switched off.
    pub open spec fn shown(self, code: Seq<char>) -> Seq<char> {
        if self.enabled {
            code
        } else {
            Seq::empty()
        }
    }

    /// The sequence to print for a colour.
    pub open spec fn paint(self, color: NamedColor) -> Seq<char> {
        self.shown(color.spec_code())
    }

    /// The sequence to print for a colour given by name.
    pub open spec fn themed(self, name: Seq<char>) -> Seq<char> {
        self.shown(self.theme.spec_resolve_color(name))
    }

    /// The sequence that ends all colour.
    pub open spec fn spec_reset(self) -> Seq<char> {
        self.shown("\x1b[0m"@)
    }

    fn emit(&self, color: NamedColor) -> (s: String)
        ensures
            s@ == self.paint(color),
    {
        if self.enabled {
            String::from_str(color.code())
        } else {
            String::new()
        }
    }

    /// The sequence of a colour given by name, empty for an unknown name.
    pub fn get_themed(&self, color_name: &str) -> (s: String)
        ensures
            s@ == self.themed(color_name@),
    {
        if !self.enabled {
            return String::new();
        }
        self.theme.resolve_color(color_name)
    }

    /// The sequence that ends all colour.
    pub fn reset(&self) -> (s: String)
        ensures
            s@ == self.spec_reset(),
    {
        if self.enabled {
            String::from_str("\x1b[0m")
        } else {
            String::new()
        }
    }

    /// The sequence for bold text.
    pub fn bold(&self) -> (s: String)
        ensures
            s@ == self.shown("\x1b[1m"@),
    {
        if self.enabled {
            String::from_str("\x1b[1m")
        } else {
            String::new()
        }
    }

    /// Red.
    pub fn red(&self) -> (s: String)
        ensures
            s@ == self.paint(NamedColor::Red),
    {
        self.emit(NamedColor::Red)
    }

    /// Green.
    pub fn green(&self) -> (s: String)
        ensures
            s@ == self.paint(NamedColor::Green),
    {
        self.emit(NamedColor::Green)
    }

    /// Yellow.
    pub fn yellow(&self) -> (s: String)
        ensures
            s@ == self.paint(NamedColor::Yellow),
    {
        self.emit(NamedColor::Yellow)
    }

    /// Blue.
    pub fn blue(&self) -> (s: String)
        ensures
            s@ == self.paint(NamedColor::Blue),
    {
        self.emit(NamedColor::Blue)
    }

    /// Magenta.
    pub fn magenta(&self) -> (s: String)
        ensures
            s@ == self.paint(NamedColor::Magenta),
    {
        self.emit(NamedColor::Magenta)
    }

    /// Cyan.
    pub fn cyan(&self) -> (s: String)
        ensures
            s@ == self.paint(NamedColor::Cyan),
    {
        self.emit(NamedColor::Cyan)
    }

    /// White.
    pub fn white(&self) -> (s: String)
        ensures
            s@ == self.paint(NamedColor::White),
    {
        self.emit(NamedColor::White)
    }

    /// Gray.
    pub fn gray(&self) -> (s: String)
        ensures
            s@ == self.paint(NamedColor::Gray),
    {
        self.emit(NamedColor::Gray)
    }

    /// Orange.
    pub fn orange(&self) -> (s: String)
        ensures
            s@ == self.paint(NamedColor::Orange),
    {
        self.emit(NamedColor::Orange)
    }

    /// Light gray.
    pub fn light_gray(&self) -> (s: String)
        ensures
            s@ == self.paint(NamedColor::LightGray),
    {
        self.emit(NamedColor::LightGray)
    }

    /// The colour of plain text.
    pub fn text_color(&self) -> (s: String)
        ensures
            s@ == self.paint(self.theme.colors.context_normal),
    {
        self.emit(self.theme.colors.context_normal)
    }

    /// The colour of the separator between parts.
    pub fn separator_color(&self) -> (s: String)
        ensures
            s@ == self.paint(self.theme.colors.separator),
    {
        self.emit(self.theme.colors.separator)
    }

    /// The colour of the directory.
    pub fn directory(&self) -> (s: String)
        ensures
            s@ == self.paint(self.theme.colors.directory),
    {
        self.emit(self.theme.colors.directory)
    }

    /// The colour of the model label.
    pub fn model(&self) -> (s: String)
        ensures
            s@ == self.paint(self.theme.colors.model),
    {
        self.emit(self.theme.colors.model)
    }

    /// The colour of the branch name.
    pub fn git_branch(&self) -> (s: String)
        ensures
            s@ == self.paint(self.theme.colors.git_branch),
    {
        self.emit(self.theme.colors.git_branch)
    }

    /// The colour of the duration.
    pub fn duration(&self) -> (s: String)
        ensures
            s@ == self.paint(self.theme.colors.duration),
    {
        self.emit(self.theme.colors.duration)
    }

    /// The colour of the added lines.
    pub fn lines_added(&self) -> (s: String)
        ensures
            s@ == self.paint(self.theme.colors.lines_added),
    {
        self.emit(self.theme.colors.lines_added)
    }

    /// The colour of the removed lines.
    pub fn lines_removed(&self) -> (s: String)
        ensures
            s@ == self.paint(self.theme.colors.lines_removed),
    {
        self.emit(self.theme.colors.lines_removed)
    }

    /// The colour of a cost, by the cost thresholds.
    pub fn cost_color(&self, cost: u64, config: &CostConfig) -> (s: String)
        ensures
            s@ == self.paint(cost_level_color(self.theme, cost, *config)),
    {
        if cost >= config.medium_threshold {
            self.emit(self.theme.colors.cost_high)
        } else if cost >= config.low_threshold {
            self.emit(self.theme.colors.cost_medium)
        } else {
            self.emit(self.theme.colors.cost_low)
        }
    }

    /// The colour of a share of the context window, by the display
    /// thresholds.
    pub fn context_color(&self, percentage: u32, config: &DisplayConfig) -> (s: String)
        ensures
            s@ == self.paint(context_level_color(self.theme, percentage, *config)),
    {
        if percentage > config.context_critical_threshold {
            self.emit(self.theme.colors.context_critical)
        } else if percentage > config.context_warning_threshold {
            self.emit(self.theme.colors.context_warning)
        } else if percentage > config.context_caution_threshold {
            self.emit(self.theme.colors.context_caution)
        } else {
            self.emit(self.theme.colors.context_normal)
        }
    }
}

/// The colour of a cost.
pub fn get_cost_color(colors: &Colors, cost: u64, config: &CostConfig) -> (s: String)
    ensures
        s@ == colors.paint(cost_level_color(colors.theme, cost, *config)),
{
    colors.cost_color(cost, config)
}

/// How a duration is displayed: seconds below a minute, whole minutes below
/// an hour, hours and minutes from there.
pub open spec fn duration_text(seconds: nat) -> Seq<char> {
    if seconds < 60 {
        decimal(seconds).push('s')
    } else if seconds < 3600 {
        decimal(seconds / 60).push('m')
    } else {
        (decimal(seconds / 3600).push('h') + decimal((seconds % 3600) / 60)).push('m')
    }
}

/// Appends the display form of a duration.
pub fn push_duration(out: &mut String, seconds: u64)
    ensures
        final(out)@ == old(out)@ + duration_text(seconds as nat),
{
    if seconds < 60 {
        push_decimal(out, seconds as u128);
        out.push('s');
    } else if seconds < 3600 {
        push_decimal(out, (seconds / 60) as u128);
        out.push('m');
    } else {
        push_decimal(out, (seconds / 3600) as u128);
        out.push('h');
        push_decimal(out, ((seconds % 3600) / 60) as u128);
        out.push('m');
    }
    assert(out@ =~= old(out)@ + duration_text(seconds as nat));
}

/// Formats a duration given in seconds.
pub fn format_duration(seconds: u64) -> (s: String)
    ensures
        s@ == duration_text(seconds as nat),
{
    let mut s = String::new();
    push_duration(&mut s, seconds);
    s
}

/// A share in whole percent, a half rounding up.
pub open spec fn whole_percent(percentage: u32) -> nat {
    ((percentage + 500) / 1000) as nat
}

/// The number of filled cells of a bar of `width` cells at the given share: the
/// share of the width, rounded to the nearest cell, at most the width.
pub open spec fn filled_cells(percentage: u32, width: nat) -> nat {
    let cells = (percentage * width + 50_000) / 100_000;
    if cells > width {
        width
    } else {
        cells as nat
    }
}

/// The bar: the filled cells as `=`, then an arrow head and the rest as `-`
/// where the bar is not full. The bar is `width` characters long.
pub open spec fn bar_text(percentage: u32, width: nat) -> Seq<char> {
    let filled = filled_cells(percentage, width);
    if filled < width {
        repeated('=', filled).push('>') + repeated('-', (width - filled - 1) as nat)
    } else {
        repeated('=', filled)
    }
}

/// The token counts behind the bar: the tokens in use and the window, where
/// both are known and the settings ask for them.
pub open spec fn token_display_text(
    colors: Colors,
    current_tokens: Option<u64>,
    window_size: Option<usize>,
    show: bool,
) -> Seq<char> {
    if show && current_tokens is Some && window_size is Some {
        seq![' '] + colors.paint(NamedColor::LightGray) + token_count_text(
            current_tokens->0 as nat,
        ) + seq!['/'] + token_count_text(window_size->0 as nat) + colors.spec_reset()
    } else {
        Seq::empty()
    }
}

/// The share and its bar, both in the colour of the share.
pub open spec fn gauge_text(colors: Colors, percentage: u32, config: DisplayConfig) -> Seq<char> {
    let color = colors.paint(context_level_color(colors.theme, percentage, config));
    color + decimal(whole_percent(percentage)) + seq!['%'] + colors.spec_reset() + seq![' ']
        + color + seq!['['] + bar_text(percentage, config.progress_bar_width as nat) + seq![']']
        + colors.spec_reset()
}

/// The context part of the status line. During a compaction it says so; just
/// after one it shows the gauge with a check mark; otherwise the gauge, with
/// a warning sign where the limit is near. The token counts follow where they
/// are shown.
pub open spec fn context_bar_text(
    colors: Colors,
    context: ContextUsage,
    current_tokens: Option<u64>,
    window_size: Option<usize>,
    config: DisplayConfig,
) -> Seq<char> {
    let tokens = token_display_text(
        colors,
        current_tokens,
        window_size,
        config.show_context_tokens,
    );
    match context.compaction_state {
        CompactionState::InProgress => colors.paint(NamedColor::Yellow) + "Compacting..."@
            + colors.spec_reset() + tokens,
        CompactionState::RecentlyCompleted => gauge_text(colors, context.percentage, config)
            + seq![' '] + colors.paint(NamedColor::Green) + seq!['✓'] + colors.spec_reset()
            + tokens,
        CompactionState::Normal => gauge_text(colors, context.percentage, config) + (
        if context.approaching_limit {
            seq![' '] + colors.paint(NamedColor::Orange) + seq!['⚠'] + colors.spec_reset()
        } else {
            Seq::empty()
        }) + tokens,
    }
}

fn push_token_display(
    out: &mut String,
    colors: &Colors,
    current_tokens: Option<u64>,
    window_size: Option<usize>,
    show: bool,
)
    ensures
        final(out)@ == old(out)@ + token_display_text(*colors, current_tokens, window_size, show),
{
    if show {
        if let (Some(current), Some(window)) = (current_tokens, window_size) {
            out.push(' ');
            out.append(colors.light_gray().as_str());
            push_token_count(out, current);
            out.push('/');
            push_token_count(out, window as u64);
            out.append(colors.reset().as_str());
            assert(out@ =~= old(out)@ + token_display_text(
                *colors,
                current_tokens,
                window_size,
                show,
            ));
            return ;
        }
    }
    assert(out@ =~= old(out)@ + token_display_text(*colors, current_tokens, window_size, show));
}

fn push_bar(out: &mut String, percentage: u32, width: usize)
    ensures
        final(out)@ == old(out)@ + bar_text(percentage, width as nat),
{
    assert(percentage as int * width as int <= 0xffff_ffff * 0xffff_ffff_ffff_ffff)
        by (nonlinear_arith)
        requires
            0 <= percentage <= 0xffff_ffff,
            0 <= width <= 0xffff_ffff_ffff_ffff,
    {
    }
    let cells: u128 = (percentage as u128 * width as u128 + 50_000) / 100_000;
    let filled: usize = if cells > width as u128 {
        width
    } else {
        cells as usize
    };
    assert(filled == filled_cells(percentage, width as nat)) by (nonlinear_arith)
        requires
            cells == (percentage as int * width as int + 50_000) / 100_000,
            filled == if cells > width {
                width as int
            } else {
                cells as int
            },
    {
    }
    push_repeated(out, '=', filled);
    if filled < width {
        out.push('>');
        push_repeated(out, '-', width - filled - 1);
    }
    assert(out@ =~= old(out)@ + bar_text(percentage, width as nat));
}

fn push_gauge(out: &mut String, colors: &Colors, percentage: u32, config: &DisplayConfig)
    ensures
        final(out)@ == old(out)@ + gauge_text(*colors, percentage, *config),
{
    let color = colors.context_color(percentage, config);
    let reset = colors.reset();
    out.append(color.as_str());
    push_decimal(out, ((percentage as u64 + 500) / 1000) as u128);
    out.push('%');
    out.append(reset.as_str());
    out.push(' ');
    out.append(color.as_str());
    out.push('[');
    push_bar(out, percentage, config.progress_bar_width);
    out.push(']');
    out.append(reset.as_str());
    assert(out@ =~= old(out)@ + gauge_text(*colors, percentage, *config));
}

/// Lays out the context part of the status line.
pub fn format_context_bar(
    context: &ContextUsage,
    current_tokens: Option<u64>,
    window_size: Option<usize>,
    config: &DisplayConfig,
    colors: &Colors,
) -> (s: String)
    ensures
        s@ == context_bar_text(*colors, *context, current_tokens, window_size, *config),
{
    let mut s = String::new();
    match context.compaction_state {
        CompactionState::InProgress => {
            s.append(colors.yellow().as_str());
            s.append("Compacting...");
            s.append(colors.reset().as_str());
        },
        CompactionState::RecentlyCompleted => {
            push_gauge(&mut s, colors, context.percentage, config);
            s.push(' ');
            s.append(colors.green().as_str());
            s.push('✓');
            s.append(colors.reset().as_str());
        },
        CompactionState::Normal => {
            push_gauge(&mut s, colors, context.percentage, config);
            if context.approaching_limit {
                s.push(' ');
                s.append(colors.orange().as_str());
                s.push('⚠');
                s.append(colors.reset().as_str());
            }
        },
    }
    push_token_display(&mut s, colors, current_tokens, window_size, config.show_context_tokens);
    assert(s@ =~= context_bar_text(*colors, *context, current_tokens, window_size, *config));
    s
}

/// What the caller gathered for one status line, each as far as it is known.
#[derive(Debug, Clone)]
pub struct StatusFacts {
    /// The home directory.
    pub home: Option<String>,
    /// The repository part, as the repository query laid it out.
    pub git_info: Option<String>,
    /// The usage estimate of the transcript.
    pub context: Option<ContextUsage>,
    /// The peak token count of the transcript.
    pub current_tokens: Option<u64>,
    /// The window of the model.
    pub window_size: Option<usize>,
    /// The duration read from the transcript, in seconds.
    pub transcript_duration: Option<u64>,
    /// The duration of the session by the ledger, in seconds.
    pub session_duration: Option<u64>,
}

/// An amount of money in cents, a half cent rounding up.
pub open spec fn rounded_cents(micros: nat) -> nat {
    (micros + 5000) / 10_000
}

/// Cents as dollars with two decimals.
pub open spec fn cents_text(cents: nat) -> Seq<char> {
    decimal(cents / 100).push('.').push(digit_char((cents / 10) % 10)).push(
        digit_char(cents % 10),
    )
}

/// An amount of money with the dollar sign, to the cent.
pub open spec fn money_text(micros: nat) -> Seq<char> {
    seq!['$'] + cents_text(rounded_cents(micros))
}

/// The cost per hour in cents, for a cost run up in `seconds`, rounded to the
/// nearest cent.
pub open spec fn hourly_cents(cost_micros: nat, seconds: nat) -> nat
    recommends
        seconds > 0,
{
    (cost_micros * 3600 + 5000 * seconds) / (10_000 * seconds)
}

/// The duration that the burn rate goes by: that of the ledger, else that of
/// the transcript.
pub open spec fn billing_duration(facts: StatusFacts) -> Option<u64> {
    match facts.session_duration {
        Some(seconds) => Some(seconds),
        None => facts.transcript_duration,
    }
}

/// The separator between the parts of the status line.
pub open spec fn separator_text(colors: Colors) -> Seq<char> {
    seq![' '] + colors.paint(colors.theme.colors.separator) + seq!['•'] + colors.spec_reset()
        + seq![' ']
}

/// The directory part: the shortened, sanitised directory in its colour.
pub open spec fn directory_part(
    colors: Colors,
    current_dir: Seq<char>,
    facts: StatusFacts,
    display: DisplayConfig,
) -> Option<Seq<char>> {
    if display.show_directory {
        Some(
            colors.paint(colors.theme.colors.directory) + sanitized(
                shortened(current_dir, string_of(facts.home)),
            ) + colors.spec_reset(),
        )
    } else {
        None
    }
}

/// The repository part: what the query laid out, without white space at its
/// start. An empty layout gives no part.
pub open spec fn git_part(facts: StatusFacts, display: DisplayConfig) -> Option<Seq<char>> {
    if display.show_git && facts.git_info is Some && facts.git_info->0@.len() > 0 {
        Some(trimmed_start(facts.git_info->0@))
    } else {
        None
    }
}

/// The context part: the context bar of the usage estimate.
pub open spec fn context_part(colors: Colors, facts: StatusFacts, display: DisplayConfig) -> Option<
    Seq<char>,
> {
    if display.show_context && facts.context is Some {
        Some(
            context_bar_text(
                colors,
                facts.context->0,
                facts.current_tokens,
                facts.window_size,
                display,
            ),
        )
    } else {
        None
    }
}

/// The model part: the short label of the model that the sanitised name
/// stands for, in its colour.
pub open spec fn model_part(
    colors: Colors,
    model_name: Option<Seq<char>>,
    display: DisplayConfig,
) -> Option<Seq<char>> {
    if display.show_model && model_name is Some {
        Some(
            colors.paint(colors.theme.colors.model) + sanitized(
                model_of(sanitized(model_name->0)).spec_abbreviation(),
            ) + colors.spec_reset(),
        )
    } else {
        None
    }
}

/// The duration part: the duration of the transcript in its colour.
pub open spec fn duration_part(colors: Colors, facts: StatusFacts, display: DisplayConfig) -> Option<
    Seq<char>,
> {
    if display.show_duration && facts.transcript_duration is Some {
        Some(
            colors.paint(colors.theme.colors.duration) + duration_text(
                facts.transcript_duration->0 as nat,
            ) + colors.spec_reset(),
        )
    } else {
        None
    }
}

/// The added lines with a plus sign, in their colour.
pub open spec fn added_text(colors: Colors, added: u64) -> Seq<char> {
    colors.paint(colors.theme.colors.lines_added) + seq!['+'] + decimal(added as nat)
        + colors.spec_reset()
}

/// The removed lines with a minus sign, in their colour.
pub open spec fn removed_text(colors: Colors, removed: u64) -> Seq<char> {
    colors.paint(colors.theme.colors.lines_removed) + seq!['-'] + decimal(removed as nat)
        + colors.spec_reset()
}

/// The lines part: the added and the removed lines, each where there are
/// any, with a blank between the two. It needs both counts reported.
pub open spec fn lines_part(colors: Colors, cost: Option<Cost>, display: DisplayConfig) -> Option<
    Seq<char>,
> {
    if display.show_lines_changed && cost is Some && cost->0.total_lines_added is Some
        && cost->0.total_lines_removed is Some {
        let added = cost->0.total_lines_added->0;
        let removed = cost->0.total_lines_removed->0;
        if added > 0 && removed > 0 {
            Some(added_text(colors, added) + seq![' '] + removed_text(colors, removed))
        } else if added > 0 {
            Some(added_text(colors, added))
        } else if removed > 0 {
            Some(removed_text(colors, removed))
        } else {
            None
        }
    } else {
        None
    }
}

/// An amount in the colour of its level.
pub open spec fn priced_text(colors: Colors, micros: u64, config: CostConfig) -> Seq<char> {
    colors.paint(cost_level_color(colors.theme, micros, config)) + money_text(micros as nat)
}

/// The burn rate behind a cost: the cost per hour, where the session has run
/// for more than a minute and has cost anything.
pub open spec fn burn_rate_text(colors: Colors, micros: u64, facts: StatusFacts) -> Seq<char> {
    match billing_duration(facts) {
        Some(seconds) => if seconds > 60 && micros > 0 {
            seq![' '] + colors.paint(NamedColor::LightGray) + seq!['(', '$'] + cents_text(
                hourly_cents(micros as nat, seconds as nat),
            ) + "/hr)"@ + colors.spec_reset()
        } else {
            Seq::empty()
        },
        None => Seq::empty(),
    }
}

/// The total of the day, alone in a part.
pub open spec fn day_only_text(colors: Colors, daily_total: u64, config: CostConfig) -> Seq<char> {
    "day: "@ + priced_text(colors, daily_total, config) + colors.spec_reset()
}

/// The cost part. With a session cost: the cost, the burn rate where there is
/// one, and the total of the day where it is higher than the session cost.
/// Without: the total of the day where there is one.
pub open spec fn cost_part(
    colors: Colors,
    cost: Option<Cost>,
    daily_total: u64,
    facts: StatusFacts,
    display: DisplayConfig,
    config: CostConfig,
) -> Option<Seq<char>> {
    if !display.show_cost {
        None
    } else if cost is Some && cost->0.total_cost_micros is Some {
        let micros = cost->0.total_cost_micros->0;
        Some(
            priced_text(colors, micros, config) + colors.spec_reset() + burn_rate_text(
                colors,
                micros,
                facts,
            ) + (if daily_total > micros {
                seq![' '] + colors.spec_reset() + "(day: "@ + priced_text(
                    colors,
                    daily_total,
                    config,
                ) + seq![')'] + colors.spec_reset()
            } else {
                Seq::empty()
            }),
        )
    } else if daily_total > 0 {
        Some(day_only_text(colors, daily_total, config))
    } else {
        None
    }
}

/// The parts that are there, in order.
pub open spec fn kept(parts: Seq<Option<Seq<char>>>) -> Seq<Seq<char>>
    decreases parts.len(),
{
    if parts.len() == 0 {
        Seq::empty()
    } else {
        match parts.last() {
            Some(part) => kept(parts.drop_last()).push(part),
            None => kept(parts.drop_last()),
        }
    }
}

/// The status line: the directory, the repository, the context, the model,
/// the duration, the lines and the cost, each where it is shown and known,
/// joined by the separator.
pub open spec fn statusline_text(
    colors: Colors,
    current_dir: Seq<char>,
    model_name: Option<Seq<char>>,
    cost: Option<Cost>,
    daily_total: u64,
    facts: StatusFacts,
    display: DisplayConfig,
    cost_config: CostConfig,
) -> Seq<char> {
    joined(
        kept(
            seq![
                directory_part(colors, current_dir, facts, display),
                git_part(facts, display),
                context_part(colors, facts, display),
                model_part(colors, model_name, display),
                duration_part(colors, facts, display),
                lines_part(colors, cost, display),
                cost_part(colors, cost, daily_total, facts, display, cost_config),
            ],
        ),
        separator_text(colors),
    )
}

/// Appends cents as dollars with two decimals.
pub fn push_cents(out: &mut String, cents: u128)
    ensures
        final(out)@ == old(out)@ + cents_text(cents as nat),
{
    push_decimal(out, cents / 100);
    out.push('.');
    out.push(digit_to_char(((cents / 10) % 10) as u8));
    out.push(digit_to_char((cents % 10) as u8));
    assert(out@ =~= old(out)@ + cents_text(cents as nat));
}

/// Appends an amount of money with the dollar sign.
pub fn push_money(out: &mut String, micros: u64)
    ensures
        final(out)@ == old(out)@ + money_text(micros as nat),
{
    out.push('$');
    push_cents(out, (micros as u128 + 5000) / 10_000);
    assert(out@ =~= old(out)@ + money_text(micros as nat));
}

/// Formats an amount of money, given in millionths of a dollar, to the cent.
pub fn format_money(micros: u64) -> (s: String)
    ensures
        s@ == money_text(micros as nat),
{
    let mut s = String::new();
    push_money(&mut s, micros);
    s
}

/// The cost per hour in cents.
pub fn burn_rate_cents(cost_micros: u64, seconds: u64) -> (cents: u128)
    requires
        seconds > 0,
    ensures
        cents == hourly_cents(cost_micros as nat, seconds as nat),
{
    (cost_micros as u128 * 3600 + 5000 * seconds as u128) / (10_000 * seconds as u128)
}

fn push_priced(out: &mut String, colors: &Colors, micros: u64, config: &CostConfig)
    ensures
        final(out)@ == old(out)@ + priced_text(*colors, micros, *config),
{
    out.append(colors.cost_color(micros, config).as_str());
    push_money(out, micros);
    assert(out@ =~= old(out)@ + priced_text(*colors, micros, *config));
}

fn push_burn_rate(out: &mut String, colors: &Colors, micros: u64, facts: &StatusFacts)
    ensures
        final(out)@ == old(out)@ + burn_rate_text(*colors, micros, *facts),
{
    let duration = match facts.session_duration {
        Some(seconds) => Some(seconds),
        None => facts.transcript_duration,
    };
    if let Some(seconds) = duration {
        if seconds > 60 && micros > 0 {
            out.push(' ');
            out.append(colors.light_gray().as_str());
            out.push('(');
            out.push('$');
            push_cents(out, burn_rate_cents(micros, seconds));
            out.append("/hr)");
            out.append(colors.reset().as_str());
            assert(out@ =~= old(out)@ + burn_rate_text(*colors, micros, *facts));
            return ;
        }
    }
    assert(out@ =~= old(out)@ + burn_rate_text(*colors, micros, *facts));
}

fn make_directory_part(
    colors: &Colors,
    current_dir: &str,
    facts: &StatusFacts,
    display: &DisplayConfig,
) -> (part: Option<String>)
    ensures
        string_of(part) == directory_part(*colors, current_dir@, *facts, *display),
{
    if !display.show_directory {
        return None;
    }
    let home: Option<&str> = match &facts.home {
        Some(h) => Some(h.as_str()),
        None => None,
    };
    let short_dir = sanitize_for_terminal(shorten_path(current_dir, home).as_str());
    let mut part = colors.directory();
    part.append(short_dir.as_str());
    part.append(colors.reset().as_str());
    Some(part)
}

fn make_git_part(facts: &StatusFacts, display: &DisplayConfig) -> (part: Option<String>)
    ensures
        string_of(part) == git_part(*facts, *display),
{
    if !display.show_git {
        return None;
    }
    match &facts.git_info {
        Some(info) => if info.as_str().unicode_len() > 0 {
            Some(trim_start(info.as_str()))
        } else {
            None
        },
        None => None,
    }
}

fn make_context_part(colors: &Colors, facts: &StatusFacts, display: &DisplayConfig) -> (part: Option<
    String,
>)
    ensures
        string_of(part) == context_part(*colors, *facts, *display),
{
    if !display.show_context {
        return None;
    }
    match &facts.context {
        Some(context) => Some(
            format_context_bar(context, facts.current_tokens, facts.window_size, display, colors),
        ),
        None => None,
    }
}

fn make_model_part(colors: &Colors, model_name: Option<&str>, display: &DisplayConfig) -> (part:
    Option<String>)
    ensures
        string_of(part) == model_part(*colors, text_of(model_name), *display),
{
    if !display.show_model {
        return None;
    }
    match model_name {
        Some(name) => {
            let clean = sanitize_for_terminal(name);
            let label = ModelType::from_name(clean.as_str()).abbreviation();
            let mut part = colors.model();
            part.append(sanitize_for_terminal(label.as_str()).as_str());
            part.append(colors.reset().as_str());
            Some(part)
        },
        None => None,
    }
}

fn make_duration_part(colors: &Colors, facts: &StatusFacts, display: &DisplayConfig) -> (part:
    Option<String>)
    ensures
        string_of(part) == duration_part(*colors, *facts, *display),
{
    if !display.show_duration {
        return None;
    }
    match facts.transcript_duration {
        Some(seconds) => {
            let mut part = colors.duration();
            push_duration(&mut part, seconds);
            part.append(colors.reset().as_str());
            Some(part)
        },
        None => None,
    }
}

fn push_added(out: &mut String, colors: &Colors, added: u64)
    ensures
        final(out)@ == old(out)@ + added_text(*colors, added),
{
    out.append(colors.lines_added().as_str());
    out.push('+');
    push_decimal(out, added as u128);
    out.append(colors.reset().as_str());
    assert(out@ =~= old(out)@ + added_text(*colors, added));
}

fn push_removed(out: &mut String, colors: &Colors, removed: u64)
    ensures
        final(out)@ == old(out)@ + removed_text(*colors, removed),
{
    out.append(colors.lines_removed().as_str());
    out.push('-');
    push_decimal(out, removed as u128);
    out.append(colors.reset().as_str());
    assert(out@ =~= old(out)@ + removed_text(*colors, removed));
}

fn make_lines_part(colors: &Colors, cost: Option<Cost>, display: &DisplayConfig) -> (part: Option<
    String,
>)
    ensures
        string_of(part) == lines_part(*colors, cost, *display),
{
    if !display.show_lines_changed {
        return None;
    }
    let (added, removed): (u64, u64) = match cost {
        Some(data) => match (data.total_lines_added, data.total_lines_removed) {
            (Some(added), Some(removed)) => (added, removed),
            _ => {
                return None;
            },
        },
        None => {
            return None;
        },
    };
    if added == 0 && removed == 0 {
        return None;
    }
    let mut part = String::new();
    if added > 0 {
        push_added(&mut part, colors, added);
    }
    if removed > 0 {
        if added > 0 {
            part.push(' ');
        }
        push_removed(&mut part, colors, removed);
    }
    assert(part@ =~= lines_part(*colors, cost, *display)->0);
    Some(part)
}

fn make_day_only(colors: &Colors, daily_total: u64, config: &CostConfig) -> (part: String)
    ensures
        part@ == day_only_text(*colors, daily_total, *config),
{
    let mut part = String::from_str("day: ");
    push_priced(&mut part, colors, daily_total, config);
    part.append(colors.reset().as_str());
    part
}

fn make_cost_part(
    colors: &Colors,
    cost: Option<Cost>,
    daily_total: u64,
    facts: &StatusFacts,
    display: &DisplayConfig,
    config: &CostConfig,
) -> (part: Option<String>)
    ensures
        string_of(part) == cost_part(*colors, cost, daily_total, *facts, *display, *config),
{
    if !display.show_cost {
        return None;
    }
    let session_cost: Option<u64> = match cost {
        Some(data) => data.total_cost_micros,
        None => None,
    };
    match session_cost {
        Some(micros) => {
            let mut part = String::new();
            push_priced(&mut part, colors, micros, config);
            part.append(colors.reset().as_str());
            push_burn_rate(&mut part, colors, micros, facts);
            if daily_total > micros {
                part.push(' ');
                part.append(colors.reset().as_str());
                part.append("(day: ");
                push_priced(&mut part, colors, daily_total, config);
                part.push(')');
                part.append(colors.reset().as_str());
            }
            assert(part@ =~= cost_part(
                *colors,
                cost,
                daily_total,
                *facts,
                *display,
                *config,
            )->0);
            Some(part)
        },
        None => if daily_total > 0 {
            Some(make_day_only(colors, daily_total, config))
        } else {
            None
        },
    }
}

/// Adds a part to the list where there is one.
fn push_part(parts: &mut Vec<String>, part: Option<String>, Ghost(before): Ghost<
    Seq<Option<Seq<char>>>,
>)
    requires
        views(old(parts)@) == kept(before),
    ensures
        views(final(parts)@) == kept(before.push(string_of(part))),
{
    proof {
        assert(before.push(string_of(part)).drop_last() =~= before);
    }
    match part {
        Some(text) => {
            parts.push(text);
            assert(views(parts@) =~= views(old(parts)@).push(text@));
        },
        None => {},
    }
}

/// Lays out the status line from the directory, the model name, the reported
/// cost, the total of the day and the gathered facts.
pub fn format_statusline_string(
    current_dir: &str,
    model_name: Option<&str>,
    cost: Option<Cost>,
    daily_total: u64,
    facts: &StatusFacts,
    display_config: &DisplayConfig,
    cost_config: &CostConfig,
    colors: &Colors,
) -> (line: String)
    ensures
        line@ == statusline_text(
            *colors,
            current_dir@,
            text_of(model_name),
            cost,
            daily_total,
            *facts,
            *display_config,
            *cost_config,
        ),
{
    let mut parts: Vec<String> = Vec::new();
    let ghost mut seen: Seq<Option<Seq<char>>> = Seq::empty();
    assert(views(parts@) =~= kept(seen));

    let directory = make_directory_part(colors, current_dir, facts, display_config);
    push_part(&mut parts, directory, Ghost(seen));
    proof {
        seen = seen.push(directory_part(*colors, current_dir@, *facts, *display_config));
    }

    let git = make_git_part(facts, display_config);
    push_part(&mut parts, git, Ghost(seen));
    proof {
        seen = seen.push(git_part(*facts, *display_config));
    }

    let context = make_context_part(colors, facts, display_config);
    push_part(&mut parts, context, Ghost(seen));
    proof {
        seen = seen.push(context_part(*colors, *facts, *display_config));
    }

    let model = make_model_part(colors, model_name, display_config);
    push_part(&mut parts, model, Ghost(seen));
    proof {
        seen = seen.push(model_part(*colors, text_of(model_name), *display_config));
    }

    let duration = make_duration_part(colors, facts, display_config);
    push_part(&mut parts, duration, Ghost(seen));
    proof {
        seen = seen.push(duration_part(*colors, *facts, *display_config));
    }

    let lines = make_lines_part(colors, cost, display_config);
    push_part(&mut parts, lines, Ghost(seen));
    proof {
        seen = seen.push(lines_part(*colors, cost, *display_config));
    }

    let priced = make_cost_part(colors, cost, daily_total, facts, display_config, cost_config);
    push_part(&mut parts, priced, Ghost(seen));
    proof {
        seen = seen.push(
            cost_part(*colors, cost, daily_total, *facts, *display_config, *cost_config),
        );
        assert(seen =~= seq![
            directory_part(*colors, current_dir@, *facts, *display_config),
            git_part(*facts, *display_config),
            context_part(*colors, *facts, *display_config),
            model_part(*colors, text_of(model_name), *display_config),
            duration_part(*colors, *facts, *display_config),
            lines_part(*colors, cost, *display_config),
            cost_part(*colors, cost, daily_total, *facts, *display_config, *cost_config),
        ]);
    }

    let mut separator = String::new();
    separator.push(' ');
    separator.append(colors.separator_color().as_str());
    separator.push('•');
    separator.append(colors.reset().as_str());
    separator.push(' ');
    assert(separator@ =~= separator_text(*colors));
    join_parts(&parts, separator.as_str())
}

/// Lays out the status line under the settings of the process.
pub fn format_output_to_string(
    current_dir: &str,
    model_name: Option<&str>,
    cost: Option<Cost>,
    daily_total: u64,
    facts: &StatusFacts,
    config: &Config,
    colors: &Colors,
) -> (line: String)
    ensures
        line@ == statusline_text(
            *colors,
            current_dir@,
            text_of(model_name),
            cost,
            daily_total,
            *facts,
            config.display,
            config.cost,
        ),
{
    format_statusline_string(
        current_dir,
        model_name,
        cost,
        daily_total,
        facts,
        &config.display,
        &config.cost,
        colors,
    )
}

} // verus!
