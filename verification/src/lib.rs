//! Adapters that let `hyper`'s runtime interfaces run on the `smol` family of
//! crates.
//!
//! - [`rt::FuturesIo`] wraps a `futures-io` stream; [`rt::futures`] holds the
//!   steps of a read into `hyper`'s read cursor.
//! - [`rt::SmolExecutor`] wraps something that refers to an
//!   `async_executor::Executor`; [`rt::execute`] places a future on one and
//!   lets go of it.
//! - [`rt::SmolTimer`] makes sleeps that wait on an `async_io::Timer`, and
//!   resets them.
//!
//! Every function here is verified against its contract. The calls into the
//! other crates are made by small private functions whose contracts say what
//! those crates document; each of them names the function it calls.

pub mod rt;
