//! The logic of a gateway that serves Gemini documents to web browsers.
//!
//! A request names a Gemini resource by its path. [`resolve`] follows
//! redirects from that resource to a document, within a budget of fetches;
//! the fetching itself is left to the caller. [`html`] turns the document,
//! which is Gemtext, into HTML, and rewrites its links so that they lead back
//! through the gateway. [`page`] puts together what the page template shows.
//! [`url`] and [`gemtext`] hold the addresses and the parsed documents that
//! these work on, and [`text`] what they need of texts.

pub mod gemtext;
pub mod html;
pub mod page;
pub mod resolve;
pub mod text;
pub mod url;
