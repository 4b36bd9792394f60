//! What the panel shows of the state it reads: the status line and the labels that
//! depend on it. Drawing is the application's part.

use vstd::prelude::*;

use crate::text::{decimal, push_decimal};

verus! {

/// The dot beside the status line. Semantic, not decorative: green is "acting now",
/// whatever the palette.
#[derive(Debug, Clone, Copy, PartialEq, Eq, Structural)]
pub enum StatusDot {
    Trouble,
    Muted,
    Waiting,
    Live,
}

pub open spec fn status_of(engine_ok: bool, live: bool, focused: bool, holding: bool) -> (
    StatusDot,
    Seq<char>,
) {
    if !engine_ok {
        (StatusDot::Trouble, "Sem motor de DPI para esta marca"@)
    } else if !live {
        (StatusDot::Muted, "Desligado"@)
    } else if !focused {
        (StatusDot::Waiting, "Aguardando o BlueStacks ganhar foco"@)
    } else if holding {
        (StatusDot::Live, "Aplicando agora"@)
    } else {
        (StatusDot::Live, "Pronto — segure o gatilho"@)
    }
}

/// The status line under the main button.
pub fn status(engine_ok: bool, live: bool, focused: bool, holding: bool) -> (shown: (
    StatusDot,
    &'static str,
))
    ensures
        (shown.0, shown.1@) == status_of(engine_ok, live, focused, holding),
{
    if !engine_ok {
        (StatusDot::Trouble, "Sem motor de DPI para esta marca")
    } else if !live {
        (StatusDot::Muted, "Desligado")
    } else if !focused {
        (StatusDot::Waiting, "Aguardando o BlueStacks ganhar foco")
    } else if holding {
        (StatusDot::Live, "Aplicando agora")
    } else {
        (StatusDot::Live, "Pronto — segure o gatilho")
    }
}

/// The main button's label: it names what clicking it does.
pub fn toggle_label(live: bool) -> (label: &'static str)
    ensures
        label@ == (if live {
            "DESATIVAR"@
        } else {
            "ATIVAR"@
        }),
{
    if live {
        "DESATIVAR"
    } else {
        "ATIVAR"
    }
}

pub open spec fn summary_of(base: u32, shooting: u32) -> Seq<char> {
    decimal(base as nat) + " para "@ + decimal(shooting as nat) + " ao atirar"@
}

/// "{base} para {shooting} ao atirar".
pub fn dpi_summary(base: u32, shooting: u32) -> (text: String)
    ensures
        text@ == summary_of(base, shooting),
{
    let mut text = String::new();
    push_decimal(&mut text, base as u64);
    text.append(" para ");
    push_decimal(&mut text, shooting as u64);
    text.append(" ao atirar");
    text
}

/// The status shows the live dot only while the engine works, the panel is on and the
/// emulator has focus.
pub proof fn lemma_live_dot_needs_all_three(engine_ok: bool, live: bool, focused: bool, holding: bool)
    ensures
        status_of(engine_ok, live, focused, holding).0 == StatusDot::Live <==> (engine_ok && live
            && focused),
{
}

} // verus!
