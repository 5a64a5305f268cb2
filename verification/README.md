# pomme

The game-client logic of a Minecraft client, written in Verus with its
contracts proved:

- `inventory`, `inventory_screen`: the 46-slot player inventory, item display
  names, and which slot each cell of the inventory screen shows;
- `creative`: the creative inventory's tabs, search, item grid, scrolling and
  the action a frame of the screen asks for;
- `tooltip`: the lines of an item tooltip;
- `player_tab`: the layout of the player list overlay;
- `registry`: block face textures and baked model variants;
- `block_entity`, `entity_parts`: blocks drawn as entity models and their
  geometry;
- `chunk_borders`: the lines outlining the chunk around the camera;
- `menu`: the main menu's state machine;
- `user`: the player's name and UUID from the command line;
- `state_slot`, `text`, `sprites`: shared pieces.

`app/` holds the program around the library: the command line, the texture
cache file, the splash file, camera-relative float geometry, and the
conversions from the protocol crate's types.
