[package]
name = "disco"
version = "0.1.0"
edition = "2021"
publish = false

[dependencies]
anchor-lang = "=0.28.0"
anchor-spl = "=0.28.0"
mpl-token-metadata = "=1.13.2"
solana-program = "=1.16.25"
# The registry calls neither of the next two. mpl-token-metadata 1.13 takes
# any spl-token below 5, and with it spl-memo 4; their later releases build on
# solana-program 2, whose addresses are another type than those of 1.16. Held
# to 4.0.0, both share the one solana-program with the rest.
spl-memo = "=4.0.0"
spl-token = "=4.0.0"
