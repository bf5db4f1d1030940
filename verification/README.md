# mgm

Management keys (MGM) for authenticating to the YubiKey management applet, with their behaviour
stated in contracts and proved by Verus.

- `src/weak.rs`: weak and semi-weak DES keys.
- `src/algorithm.rs`: key types, algorithms, and the firmware versions that prefer them.
- `src/key.rs`: the keys: making them from bytes, a salt and the PIN, or random bytes; answering and
  checking challenges with them.
- `src/request.rs`, `src/update.rs`, `src/lookup.rs`: changing the key of a device and finding it,
  as conversations that ask for one operation on the device at a time.
- `src/card.rs`: what these conversations come to on a device that does what it is asked.
- `src/cipher.rs`, `src/primitives.rs`: what the library takes on trust from other crates: block
  ciphers, PBKDF2, random bytes, comparison in constant time, and wiping of memory.
- `app/`: the conversations run on a device.

No key is a weak 3DES key: the check is made whenever a key is made, out of random bytes too, and a
weak one is refused. A key of 24 bytes fits both 3DES and AES-192, so the algorithm has to be named
when it is parsed; `MgmKey::new` makes a 3DES key.
