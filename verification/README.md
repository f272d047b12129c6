# texture_preview

Converts game textures (KTX2 and BLP) to JPEG previews.

- `src/` is the verified library: choosing the container by file extension,
  reading KTX2 containers with the `ktx2` crate and decoding their first mip
  level (RGBA8 and RGB8 texels, and block-compressed texels through
  `texture2ddecoder`) into an RGBA8 `image::DynamicImage`, and telling which
  KTX2 inputs the `ktx2` reader, and which ASTC blocks the ASTC decoder,
  would panic on. Calls into those crates go
  through small trusted wrappers whose contracts are documented where they
  stand.
- `app/main.rs` is the command line tool: argument parsing, reading the input
  file, BLP decoding with `image-blp`, error messages and writing the JPEG.
- `tests/` exercises the library on concrete inputs.
