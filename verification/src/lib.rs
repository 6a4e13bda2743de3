//! A command-line weather client's core: resolving requested cities
//! (including the reserved `favorites` token), fetching each city's
//! current conditions independently of the others' failures, converting
//! units, rendering the report block, and keeping the favorites list as a
//! small durable set. Temperatures travel as hundredths of a degree, so
//! every conversion and every rendered digit is proved exact; the remote
//! provider, the JSON codec and the calendar are reached through a few
//! narrow trusted declarations.

pub mod favorites;
pub mod fetch;
pub mod numfmt;
pub mod render;
pub mod report;
pub mod resolver;
pub mod timefmt;
pub mod units;
