//! Kernel panic screen.

use vstd::prelude::*;
use vstd::slice::slice_subrange;
use vstd::utf8::{encode_utf8, decode_utf8, valid_utf8};
use crate::gfx::canvas::{Grid, paint, text_region, solid};
use crate::gfx::color::Color;
use crate::gfx::renderer::Renderer;
use crate::text::{str_from_utf8, lemma_ascii_len, lemma_encode_len};

verus! {

/// The part of a source file name the panic screen shows: its first 100
/// bytes (all of them if shorter), when they are valid UTF-8.
pub open spec fn shown_location(file: Seq<char>) -> Option<Seq<char>> {
    let b = encode_utf8(file);
    let t = b.subrange(0, if b.len() < 100 { b.len() as int } else { 100 });
    if valid_utf8(t) { Some(decode_utf8(t)) } else { None }
}

/// What `panic_screen` draws: a dark red screen with the title at scale 3,
/// the explanation, the panic message and the location's file name when
/// known, and the restart advice and version.
pub open spec fn panic_scene(r: Renderer, message: Option<Seq<char>>, file: Option<Seq<char>>) -> Grid {
    let f = r.font();
    let pink = r.pixel_of(Color::rgb(0xFF, 0xCC, 0xCC));
    let rose = r.pixel_of(Color::rgb(0xFF, 0xAA, 0xAA));
    let white = r.pixel_of(Color::white());
    let g0 = solid(r.width() as nat, r.height() as nat, r.pixel_of(Color::rgb(0x8B, 0x00, 0x00)));
    let g1 = paint(g0, text_region(f, "! KERNEL PANIC"@, 40, 60, 3), white);
    let g2 = paint(g1, text_region(f, "CosmicOS ha riscontrato un errore critico."@, 40, 130, 1), pink);
    let g3 = paint(g2, text_region(f, "Il sistema e' stato arrestato per sicurezza."@, 40, 160, 1), pink);
    let g4 = match message {
        Some(m) => paint(paint(g3, text_region(f, "Errore:"@, 40, 210, 1), rose), text_region(f, m, 40, 230, 1), white),
        None => g3,
    };
    let g5 = match file {
        Some(path) => {
            let h1 = paint(g4, text_region(f, "Posizione:"@, 40, 270, 1), rose);
            match shown_location(path) {
                Some(t) => paint(h1, text_region(f, t, 40, 290, 1), white),
                None => h1,
            }
        },
        None => g4,
    };
    let g6 = paint(g5, text_region(f, "Riavvia il sistema per continuare."@, 40, 360, 1), pink);
    paint(g6, text_region(f, "Cosmic v0.0.1 Developer Beta"@, 40, 400, 1), r.pixel_of(Color::rgb(0xFF, 0x88, 0x88)))
}

/// The lengths, in characters and bytes, of the panic screen's texts.
proof fn lemma_panic_texts()
    ensures
        "! KERNEL PANIC"@.len() == 14 && "! KERNEL PANIC".len() == 14,
        "CosmicOS ha riscontrato un errore critico."@.len() == 42 && "CosmicOS ha riscontrato un errore critico.".len() == 42,
        "Il sistema e' stato arrestato per sicurezza."@.len() == 44 && "Il sistema e' stato arrestato per sicurezza.".len() == 44,
        "Errore:"@.len() == 7 && "Errore:".len() == 7,
        "Posizione:"@.len() == 10 && "Posizione:".len() == 10,
        "Riavvia il sistema per continuare."@.len() == 34 && "Riavvia il sistema per continuare.".len() == 34,
        "Cosmic v0.0.1 Developer Beta"@.len() == 28 && "Cosmic v0.0.1 Developer Beta".len() == 28,
{
    reveal_strlit("! KERNEL PANIC");
    lemma_ascii_len("! KERNEL PANIC");
    reveal_strlit("CosmicOS ha riscontrato un errore critico.");
    lemma_ascii_len("CosmicOS ha riscontrato un errore critico.");
    reveal_strlit("Il sistema e' stato arrestato per sicurezza.");
    lemma_ascii_len("Il sistema e' stato arrestato per sicurezza.");
    reveal_strlit("Errore:");
    lemma_ascii_len("Errore:");
    reveal_strlit("Posizione:");
    lemma_ascii_len("Posizione:");
    reveal_strlit("Riavvia il sistema per continuare.");
    lemma_ascii_len("Riavvia il sistema per continuare.");
    reveal_strlit("Cosmic v0.0.1 Developer Beta");
    lemma_ascii_len("Cosmic v0.0.1 Developer Beta");
}

/// The message of an optional string, as characters.
pub open spec fn chars_of(s: Option<&str>) -> Option<Seq<char>> {
    match s {
        Some(t) => Some(t@),
        None => None,
    }
}

/// Draws the kernel panic screen with the panic message and the name of
/// the source file where it happened, when known.
#[verifier::rlimit(60)]
#[verifier::spinoff_prover]
pub fn panic_screen(r: &mut Renderer, message: Option<&str>, location_file: Option<&str>)
    requires
        old(r).shifts_ok(),
        message matches Some(m) ==> 40 + m@.len() * 9 <= usize::MAX,
    ensures
        final(r).same_setup(old(r)),
        final(r)@ == panic_scene(*old(r), chars_of(message), chars_of(location_file)),
{
    proof { lemma_panic_texts(); }
    r.clear(Color::rgb(0x8B, 0x00, 0x00));

    r.draw_string(40, 60, "! KERNEL PANIC", Color::white(), 3);
    r.draw_string(40, 130, "CosmicOS ha riscontrato un errore critico.", Color::rgb(0xFF, 0xCC, 0xCC), 1);
    r.draw_string(40, 160, "Il sistema e' stato arrestato per sicurezza.", Color::rgb(0xFF, 0xCC, 0xCC), 1);

    if let Some(msg) = message {
        r.draw_string(40, 210, "Errore:", Color::rgb(0xFF, 0xAA, 0xAA), 1);
        r.draw_string(40, 230, msg, Color::white(), 1);
    }

    if let Some(file) = location_file {
        r.draw_string(40, 270, "Posizione:", Color::rgb(0xFF, 0xAA, 0xAA), 1);
        let bytes = file.as_bytes();
        let len = if bytes.len() < 100 { bytes.len() } else { 100 };
        let part = slice_subrange(bytes, 0, len);
        if let Some(s) = str_from_utf8(part) {
            proof {
                vstd::utf8::encode_utf8_decode_utf8(s@);
                lemma_encode_len(s@);
            }
            r.draw_string(40, 290, s, Color::white(), 1);
        }
    }

    r.draw_string(40, 360, "Riavvia il sistema per continuare.", Color::rgb(0xFF, 0xCC, 0xCC), 1);
    r.draw_string(40, 400, "Cosmic v0.0.1 Developer Beta", Color::rgb(0xFF, 0x88, 0x88), 1);
}

} // verus!
