[package]
name = "julios"
version = "0.1.0"
edition = "2021"
publish = false

[dependencies]
crossbeam-queue = "=0.2.3"
heapless = "=0.7.17"
prefix_tree_map = "=0.2.1"
futures-util = { version = "=0.3.34", default-features = false, features = ["alloc"] }
async-trait = "=0.1.92"
conquer-once = { version = "=0.3.2", default-features = false }
lazy_static = "=1.5.1"
spin = "=0.9.9"
x86_64 = { version = "=0.15.5", default-features = false, features = ["instructions"] }
pic8259 = "=0.11.0"
pc-keyboard = "=0.5.1"
linked_list_allocator = "=0.10.6"
multiboot2 = "=0.28.0"

[dev-dependencies]
postcard = "=1.1.3"
serde = "=1.0.229"
