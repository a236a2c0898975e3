# zenoh-jni

The native side of Zenoh's Java and Kotlin bindings, as a verified library.

- `src/` is verified with Verus. It holds every decision the JNI entry
  points make: checking, canonizing, relating, joining and gluing key
  expressions (through zenoh); the text of zenoh ids; reading the ordinals
  Java passes for quality of service and query settings; the arguments of the
  sample, reply and query callbacks; the configuration of advanced publishers
  and subscribers; loading configurations; and the JNI calling convention
  (null or an error message, single-element `out` arrays).
- `app/` holds the JNI entry points themselves (`Java_io_zenoh_jni_...`):
  reading and writing Java values, handing raw pointers to Java, and the calls
  into zenoh that talk to the network.
- `tests/` runs the library against the real zenoh crates.
