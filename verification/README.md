# ironclaw

Verified decisions of an agent runtime:

- `channel_routing`: which tools are shown and permitted on which channel.
- `loom_render`: composing a video from an audio track and a website capture.
  `params` refuses what cannot be rendered, `job` leads a request from the
  download to the report, `drive` speaks with the services, `render` chooses
  container and codecs, `audio` and `encode` hold the ffmpeg protocol, `errors`
  maps failures to stable codes.
- `zoho_mail`: requests to a mail API and what is made of its replies.
- `budget`: administration of budget accounts.
- `json`, `text`, `names`, `http`, `tool`: what the others share.

What is stated of each function stands in its `requires` and `ensures`; what
holds across functions stands in the proof functions whose names begin with
`law_`. `app/` holds the outside: the sandbox host, ffmpeg, the settings store,
the budget database and the command line.
