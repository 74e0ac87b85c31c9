//! Stroke smoothing and room synchronisation rules for a shared stylus canvas.
//!
//! The pen's samples go through the [`smoother`], which turns every window of
//! three into one tapered segment, and the [`rect`] tracker merges what was
//! painted into one region to repaint. When a stroke ends, the [`assembler`]
//! makes a [`drawing`] of it, which the [`room`] session sends to the other
//! participants and receives from them. The [`share`] loop decides when a
//! snapshot of the canvas is uploaded, and the [`replay`] engine plays
//! recorded strokes with a bounded amount of ink.
//!
//! Positions are integers in canvas units, 64 to the pixel. Where a midpoint
//! or a width would need a fraction, the value is kept exactly as an integer
//! over a fixed denominator, which the owning type documents.

pub mod assembler;
pub mod backoff;
pub mod buttons;
pub mod cellton;
pub mod drawing;
pub mod history;
pub mod modes;
pub mod mouldings;
pub mod pen;
pub mod rect;
pub mod replay;
pub mod room;
pub mod scrolls;
pub mod share;
pub mod sketch;
pub mod smoother;
pub mod strokes;
pub mod touch;
pub mod unipen;
