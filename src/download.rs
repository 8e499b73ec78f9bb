use vstd::prelude::*;
use vstd::string::*;

verus! {

const PAGE_PART_0: &'static str = "   <!DOCTYPE html>\n        <head>\n            <title>OpenTwin</title>\n        </head>\n        <body>\n            <img alt=\"Could not load OpenTwin logo\" src=\"data:image/png; base64, \n            iVBORw0KGgoAAAANSUhEUgAAAfQAAAH0CAYAAADL1t+KAAAACXBIWXMAACZzAAAmcwHzbHUKAAAL\n            hWlUWHRYTUw6Y29tLmFkb2JlLnhtcAAAAAAAPD94cGFja2V0IGJlZ2luPSLvu78iIGlkPSJXNU0w\n            TXBDZWhpSHpyZVN6TlRjemtjOWQiPz4gPHg6eG1wbWV0YSB4bWxuczp4PSJhZG9iZTpuczptZXRh\n            LyIgeDp4bXB0az0iQWRvYmUgWE1QIENvcmUgOS4wLWMwMDAgNzkuMTcxYzI3ZiwgMjAyMi8wOC8x\n            Ni0xODowMjo0MyAgICAgICAgIj4gPHJkZjpSREYgeG1sbnM6cmRmPSJodHRwOi8vd3d3LnczLm9y\n            Zy8xOTk5LzAyLzIyLXJkZi1zeW50YXgtbnMjIj4gPHJkZjpEZXNjcmlwdGlvbiByZGY6YWJvdXQ9\n            IiIgeG1sbnM6eG1wPSJodHRwOi8vbnMuYWRvYmUuY29tL3hhcC8xLjAvIiB4bWxuczpwaG90b3No\n            b3A9Imh0dHA6Ly9ucy5hZG9iZS5jb20vcGhvdG9zaG9wLzEuMC8iIHhtbG5zOmRjPSJodHRwOi8v\n            cHVybC5vcmcvZGMvZWxlbWVudHMvMS4xLyIgeG1sbnM6eG1wTU09Imh0dHA6Ly9ucy5hZG9iZS5j\n            b20veGFwLzEuMC9tbS8iIHhtbG5zOnN0RXZ0PSJodHRwOi8vbnMuYWRvYmUuY29tL3hhcC8xLjAv\n            c1R5cGUvUmVzb3VyY2VFdmVudCMiIHhtbG5zOnN0UmVmPSJodHRwOi8vbnMuYWRvYmUuY29tL3hh\n";

const PAGE_PART_1: &'static str = "            cC8xLjAvc1R5cGUvUmVzb3VyY2VSZWYjIiB4bWxuczp0aWZmPSJodHRwOi8vbnMuYWRvYmUuY29t\n            L3RpZmYvMS4wLyIgeG1sbnM6ZXhpZj0iaHR0cDovL25zLmFkb2JlLmNvbS9leGlmLzEuMC8iIHht\n            cDpDcmVhdG9yVG9vbD0iQWRvYmUgUGhvdG9zaG9wIDI0LjAgKFdpbmRvd3MpIiB4bXA6Q3JlYXRl\n            RGF0ZT0iMjAyMi0xMS0xNFQyMzoxMzo0NiswMTowMCIgeG1wOk1ldGFkYXRhRGF0ZT0iMjAyMi0x\n            Mi0xNlQyMzowNzo1OSswMTowMCIgeG1wOk1vZGlmeURhdGU9IjIwMjItMTItMTZUMjM6MDc6NTkr\n            MDE6MDAiIHBob3Rvc2hvcDpDb2xvck1vZGU9IjMiIGRjOmZvcm1hdD0iaW1hZ2UvcG5nIiB4bXBN\n            TTpJbnN0YW5jZUlEPSJ4bXAuaWlkOjdhYWU3ODE1LTNkOTktZWQ0ZC04MGFhLThlMmMzZTE4Yzg4\n            MCIgeG1wTU06RG9jdW1lbnRJRD0iYWRvYmU6ZG9jaWQ6cGhvdG9zaG9wOjIyOGY2Zjk4LTkzMTIt\n            Njk0NS05MTlmLTdkYjNhNjFhNTFiOCIgeG1wTU06T3JpZ2luYWxEb2N1bWVudElEPSJ4bXAuZGlk\n            OjJlODYxMzI2LThhODMtZDY0OS04Y2E0LWM4MmE3NzY0MGQ4NyIgdGlmZjpPcmllbnRhdGlvbj0i\n            MSIgdGlmZjpYUmVzb2x1dGlvbj0iMjUwMDAwMC8xMDAwMCIgdGlmZjpZUmVzb2x1dGlvbj0iMjUw\n            MDAwMC8xMDAwMCIgdGlmZjpSZXNvbHV0aW9uVW5pdD0iMiIgZXhpZjpDb2xvclNwYWNlPSI2NTUz\n            NSIgZXhpZjpQaXhlbFhEaW1lbnNpb249IjUwMCIgZXhpZjpQaXhlbFlEaW1lbnNpb249IjUwMCI+\n";

const PAGE_PART_2: &'static str = "            IDxwaG90b3Nob3A6VGV4dExheWVycz4gPHJkZjpCYWc+IDxyZGY6bGkgcGhvdG9zaG9wOkxheWVy\n            TmFtZT0iTyIgcGhvdG9zaG9wOkxheWVyVGV4dD0iTyIvPiA8cmRmOmxpIHBob3Rvc2hvcDpMYXll\n            ck5hbWU9IlQiIHBob3Rvc2hvcDpMYXllclRleHQ9IlQiLz4gPHJkZjpsaSBwaG90b3Nob3A6TGF5\n            ZXJOYW1lPSItIiBwaG90b3Nob3A6TGF5ZXJUZXh0PSItIi8+IDxyZGY6bGkgcGhvdG9zaG9wOkxh\n            eWVyTmFtZT0iT1BFTiBUV0lOIiBwaG90b3Nob3A6TGF5ZXJUZXh0PSJPUEVOIFRXSU4iLz4gPHJk\n            ZjpsaSBwaG90b3Nob3A6TGF5ZXJOYW1lPSJPIiBwaG90b3Nob3A6TGF5ZXJUZXh0PSJPIi8+IDxy\n            ZGY6bGkgcGhvdG9zaG9wOkxheWVyTmFtZT0iVCIgcGhvdG9zaG9wOkxheWVyVGV4dD0iVCIvPiA8\n            cmRmOmxpIHBob3Rvc2hvcDpMYXllck5hbWU9Ii0iIHBob3Rvc2hvcDpMYXllclRleHQ9Ii0iLz4g\n            PC9yZGY6QmFnPiA8L3Bob3Rvc2hvcDpUZXh0TGF5ZXJzPiA8eG1wTU06SGlzdG9yeT4gPHJkZjpT\n            ZXE+IDxyZGY6bGkgc3RFdnQ6YWN0aW9uPSJjcmVhdGVkIiBzdEV2dDppbnN0YW5jZUlEPSJ4bXAu\n            aWlkOjJlODYxMzI2LThhODMtZDY0OS04Y2E0LWM4MmE3NzY0MGQ4NyIgc3RFdnQ6d2hlbj0iMjAy\n            Mi0xMS0xNFQyMzoxMzo0NiswMTowMCIgc3RFdnQ6c29mdHdhcmVBZ2VudD0iQWRvYmUgUGhvdG9z\n            aG9wIDI0LjAgKFdpbmRvd3MpIi8+IDxyZGY6bGkgc3RFdnQ6YWN0aW9uPSJzYXZlZCIgc3RFdnQ6\n";

const PAGE_PART_3: &'static str = "            aW5zdGFuY2VJRD0ieG1wLmlpZDoyZDdjM2MyNy0yMzA4LTQ5NDMtOTEzZC01OGI3N2YwMTRlZjAi\n            IHN0RXZ0OndoZW49IjIwMjItMTItMTZUMjM6MDc6NTkrMDE6MDAiIHN0RXZ0OnNvZnR3YXJlQWdl\n            bnQ9IkFkb2JlIFBob3Rvc2hvcCAyNC4xIChXaW5kb3dzKSIgc3RFdnQ6Y2hhbmdlZD0iLyIvPiA8\n            cmRmOmxpIHN0RXZ0OmFjdGlvbj0iY29udmVydGVkIiBzdEV2dDpwYXJhbWV0ZXJzPSJmcm9tIGFw\n            cGxpY2F0aW9uL3ZuZC5hZG9iZS5waG90b3Nob3AgdG8gaW1hZ2UvcG5nIi8+IDxyZGY6bGkgc3RF\n            dnQ6YWN0aW9uPSJkZXJpdmVkIiBzdEV2dDpwYXJhbWV0ZXJzPSJjb252ZXJ0ZWQgZnJvbSBhcHBs\n            aWNhdGlvbi92bmQuYWRvYmUucGhvdG9zaG9wIHRvIGltYWdlL3BuZyIvPiA8cmRmOmxpIHN0RXZ0\n            OmFjdGlvbj0ic2F2ZWQiIHN0RXZ0Omluc3RhbmNlSUQ9InhtcC5paWQ6N2FhZTc4MTUtM2Q5OS1l\n            ZDRkLTgwYWEtOGUyYzNlMThjODgwIiBzdEV2dDp3aGVuPSIyMDIyLTEyLTE2VDIzOjA3OjU5KzAx\n            OjAwIiBzdEV2dDpzb2Z0d2FyZUFnZW50PSJBZG9iZSBQaG90b3Nob3AgMjQuMSAoV2luZG93cyki\n            IHN0RXZ0OmNoYW5nZWQ9Ii8iLz4gPC9yZGY6U2VxPiA8L3htcE1NOkhpc3Rvcnk+IDx4bXBNTTpE\n            ZXJpdmVkRnJvbSBzdFJlZjppbnN0YW5jZUlEPSJ4bXAuaWlkOjJkN2MzYzI3LTIzMDgtNDk0My05\n            MTNkLTU4Yjc3ZjAxNGVmMCIgc3RSZWY6ZG9jdW1lbnRJRD0ieG1wLmRpZDoyZTg2MTMyNi04YTgz\n";

const PAGE_PART_4: &'static str = "            LWQ2NDktOGNhNC1jODJhNzc2NDBkODciIHN0UmVmOm9yaWdpbmFsRG9jdW1lbnRJRD0ieG1wLmRp\n            ZDoyZTg2MTMyNi04YTgzLWQ2NDktOGNhNC1jODJhNzc2NDBkODciLz4gPC9yZGY6RGVzY3JpcHRp\n            b24+IDwvcmRmOlJERj4gPC94OnhtcG1ldGE+IDw/eHBhY2tldCBlbmQ9InIiPz56dhwRAAAmkElE\n            QVR4nO3debhlVX3m8e9BBgUFqlRAjIiFCiIyCCLOSqioUeOQgMaBOOSBqImd1o5Vxqkd0ilMaNsY\n            OwGj7RCjgkaM2NpSGo1TRBAVEVQoBxSVqQCZp91/rFNFVd1bVWfvs8/5rb3W9/M89wEU7nnvrbPP\n            u9fae681apoGSZI0bNtEB5AkSdOz0CVJKoCFLklSASx0SZIKYKFLklQAC12SpAJY6JIkFcBClySp\n            ABa6JEkFsNAlSSqAhS5JUgEsdEmSCmChS5JUAAtdkqQCWOiSJBXAQpckqQAWuiRJBbDQJUkqgIUu\n            SVIBLHRJkgpgoUuSVAALXZKkAljokiQVwEKXJKkAFrokSQWw0CVJKoCFLklSASx0SZIKYKFLklQA\n            C12SpAJY6JIkFcBClySpABa6JEkFsNAlSSqAhS5JUgEsdEmSCmChS5JUAAtdkqQCWOiSJBXAQpck\n            qQAWuiRJBbDQJUkqgIUuSVIBLHRJkgpgoUuSVAALXZKkAljokiQVwEKXJKkAFrokSQWw0CVJKoCF\n            LklSASx0SZIKYKFLklQAC12SpAJY6JIkFcBClySpABa6JEkFsNAlSSqAhS5JUgEsdEmSCmChS5JU\n            AAtdkqQCWOiSJBXAQpckqQAWuiRJBbDQJUkqgIUuSVIBLHRJkgpgoUuSVAALXZKkAljokiQVYNvo\n            AKrKbsCewL2AewO7j7+WAkvGf90J2BnYcfy1U0hSSbrD+4EXRofYGgtdfVsKHADsC+wP7APcb/xl\n";

const PAGE_PART_5: &'static str = "            OUvSjFjomsZewMOAhwKHjL/2CE0kSZWy0DWpbYADgccDjwQeRZo+lyRlwELXltwXeBKwnFTkdw9N\n            I0naLAtdGxoBDweeDjyVdC1ckjQAFrpGwKOBZwBHA/cJTSNJ6sRCr9cDgBcAx5Km1iVJA2ah1+XO\n            wDHA8aQb2yRJhbDQ67AMeDlpYYSlsVEkSbNgoZftUcArgWeSrpVLkgploZdnBDwZeB3wiOAskqQ5\n            sdDLMSI9bvZG4ODYKJKkebPQy7AcWEVaglWSVCELfdgeRiryI6ODSJJiWejDtAepyI/Fm90kSVjo\n            Q7Md8CrgtcBdg7NIkjJioQ/Ho4CTSXuMS5K0kW2iA2irdgZOAr6CZS5J2gxH6HlbDrwHN0yRJG2F\n            I/Q87QS8C/gclrkkaQKO0PNzIPBRYL/oIJKk4XCEnpeXA2dimUuSWnKEnoedgH8CnhMdRJI0TBZ6\n            vPsDnwAOiA4iSRoup9xjHQV8E8tckjQlCz3OccBngF2Dc0iSCmChz98I+BvSYjFe8pAk9cJCma9t\n            SQvFHBsdRJJUFgt9fnYETgV+NzqIJKk8Fvp87AicDjwhOogkqUxeQ5+9u2GZS5JmzBH6bO0ErAYO\n            jw4iSSqbI/TZ2QH4FJa5JGkOLPTZ2JZ0A5zT7JKkubDQ+zcircv+tOggkqR6WOj9exPwR9EhJEl1\n            sdD79SLg9dEhJEn1sdD781jScq6SJM2dhd6PvUg3wW0XHUSSVCcLfXp3Ie1nvlt0EElSvSz06b0T\n            eGh0CElS3Sz06TwfeEl0CEmSLPTu9gP+MTqEJElgoXe1HfAh0lrtkiSFc3OWbt6I1837dBNwAXAe\n            8GPgYuBnwNoNvm7e5L/ZlrST3d3HX7sDy4C9gQcBB5C2rVU/PgK8NDrElP4a+JPoEIGeBnwlOsRA\n            bfr5kyULvb1HAq+JDjFwvwDOAL4OfA04H7itw/e5nHQCsJg7AQ8AHg08nrSu/p4dXkPJc4CPAx+L\n";

const PAGE_PART_6: &'static str = "            DjKFm6IDBLsWuCo6hGbHQm/nzsB78VJFF+cBHwU+CXx3Dq93G2nUfwFpbf0RaVblmaRy2mcOGUrz\n            D8AXSSdSkjJjMbXzOmDf6BADci2pBA4mTYG/hfmU+WIa4GzSn+EDgMcB/wzcEpRniO4BvCM6hKTF\n            WeiTOxBYER1iIC4lXZbYE3gZ8J3YOAs0wH8ALyBdd/9b4LrQRMPxXOD3okNIWshCn8yItE67lyi2\n            7DfAStKNaavG/5y7nwN/QRq1n0S3a/m1eSfecChlx0KfzLHAEdEhMvcBUimeANwQnKWLX5LugD6E\n            dLOeNm8v4A3RISRtzELful2At0WHyNjFwBNJe8D/OjhLH84l3Rn/CrwrekteCewfHULSHSz0rXsD\n            bryyOacBBwGfC87Rt9tJ08qHke7O10LbASdGh5B0Bwt9y/YG/jQ6RIYa0g2CzyIt+lKq7wEPB/41\n            OkimnjT+kpQBC33L/grYPjpEZm4A/oB0GaIJzjIP15F+3rdGB8nUiXizqJQFC33zDiE9oqM7XEO6\n            Xl7biLUBXg/8l+ggGdofeGF0CEkW+pa8JTpAZq4Bfgf4cnSQQH8H/HF0iAy9AdghOoRUOwt9cUcA\n            T4kOkZEbSBs7fCM6SAbeA/xZdIjM3Ifhb9wiDZ6Fvrj/Hh0gI7cDzyOtrKbk74E3RYfIzGuAu0SH\n            kGpmoS90KOk6sZLXAZ+IDpGhN5G2FFWyG3B8dAipZhb6Qq+ODpCRj5GWcNVCDfBi4KzoIBl5FT4V\n            IoWx0De2D+kRJcFPSTeA1fBoWlc3AM8m3TAo+C3SioGSAljoG3sl/k4gXTd/LnB1dJABWIN3vm/o\n            VaTNjCTNmeV1h51xdLHOO4CvRYcYkFOBf4kOkYl9gSdHh5BqZKHf4UXATtEhMvAT0o1waucVlLE5\n            TR/+PDqAVCMLPRnhmu3r/Ffg+ugQA3QFFtk6y3EnNmnuLPTkSOD+0SEy8O+kHdTUzUepeyW9DR0X\n";

const PAGE_PART_7: &'static str = "            HUCqjYWevDg6QCZeFR1g4BrS1LtPBsCxwJ2jQ0g1sdBhV+D3o0Nk4OPAOdEhCvBt4EPRITKwBDg6\n            OoRUEws9PZ5V+8YSDWmDDfXjTcBt0SEy4MyXNEcWOjw/OkAGPg18PzpEQS4EPhgdIgOPI23cImkO\n            ai/0+wKPiA6RgROjAxTobXgtfYQnzNLc1F7ofxgdIAPnAF+MDlGg80kzH7V7QXQAqRa1F7o37cDJ\n            0QEK5swHPAifSZfmouZCvy/w0OgQwa7HJUtn6UvAD6NDZMCnSKQ5qLnQnxEdIAOn4k5hs9TgDAjA\n            MdEBpBpY6HX7SHSACnwQH2E7gLQ1saQZqrXQdwUeEx0i2GXAGdEhKnApsDo6RAaeEh1AKl2thX4k\n            cKfoEMFOw5HjvHw4OkAGLHRpxmot9CdFB8jAJ6MDVOQ04JboEMEeB+wYHUIqWa2F/sToAMGuB74Q\n            HaIiV5PueK/ZDsATokNIJaux0PcB9ooOEewLwA3RISrzb9EBMmChSzNUY6HXfjMcwOejA1To9OgA\n            GbDQpRmqsdAfHx0gA951PX8/Bi6KDhHsEGBpdAipVDUW+mOjAwS7DDgvOkSlar9vYQQ8MjqEVKra\n            Cn134H7RIYJ9DXcBi1J7oYOFLs1MbYX+sOgAGfh6dICK/Ud0gAwcER1AKlVthe6HCXw1OkDFLgF+\n            Hh0i2OG4qJM0E7UV+mHRAYI1wLejQ1Su9hmSnYD9okNIJaqt0A+JDhDsR8C10SEqd2Z0gAzUvm2x\n            NBM1FfruwG7RIYKdEx1A/hngibU0EzUV+kHRATJwbnQA8Z3oABk4ODqAVKKaCv0h0QEy8P3oAOJy\n            4JfRIYJ5LEozUFOh7x8dIAPnRwcQAN+LDhDsHrhinNS7mgr9AdEBgt2KS4/m4gfRATLw4OgAUmlq\n            KvTaH5W5GPfkzsUPowNkYN/oAFJpain0XYF7RocItiY6gNaz0J0xk3pXS6HXvn47pN2+lAf/LDwm\n";

const PAGE_PART_8: &'static str = "            pd7VUuj3jQ6QgZ9EB9B6P4sOkIFl0QGk0ljo9fhFdACtdyNwaXSIYI7QpZ5Z6PWo/dnn3Pw0OkCw\n            pcBdokNIJaml0O8dHSADte/ylZtfRwfIgMel1KNaCn2P6AAZqH2KNzfOmHhcSr2qpdB3jw6QgSui\n            A2gjl0cHyIAjdKlHtRT6vaIDBLsCuD06hDbiCN3dD6Ve1VDo2wM7R4cI5ug8P2ujA2Tg7tEBpJLU\n            UOi7RgfIwFXRAbTAVdEBMmChSz2qodCXRAfIwG+iA2iBq6IDZMBCl3pkodfBQs/P1dEBMrBLdACp\n            JDUU+q7RATJgeeTHkyzYKTqAVJIaCv3O0QEycE10AC1wfXSADDhCl3pUQ6HXfoc7+Mhajm6ODpCB\n            HaMDSCWpodC3jw4gLcJZE9ghOoBUkhoK/a7RAaRFOGviCF3qVQ2FLilPzp5JPaqh0LeLDiBthtPu\n            knpTQ6H7aIyPreWqiQ4Q7E7RAaSS1FDosjiUJ+9vkXpkoUuSVAALXZKkAljokiQVwEKXJKkAFnod\n            rooOIEmaLQtdkqQCWOiSJBXAQpckqQAWuiRJBbDQJUkqgIUuKYp7DEg9stAlSSqAhS7F2TY6gKRy\n            WOhSHLf2ldSbGgr91ugAGdg+OoC0iJuiA0glqaHQr40OkIEdowNoAafb4YboAFJJaih0RwEWeo7u\n            Gh0gA9dEB5BKUkOhOwpwyj1HXj+Hm6MDSCWpodCdcoe7RQfQAneODpABj02pRzUU+lXRATJgoefH\n            PxOn3KVeWeh12DU6gBZYEh0gA2ujA0glqaHQXV4SdokOoAUsdLgyOoBUkhoK/aroABnYNTqAFrDQ\n            HaFLvaqh0C8DbosOEewe0QG0wNLoABm4LDqAVJIaCh384FiKj67l5p7RATJwaXQAqSS1FPqvowNk\n            wFF6XvaMDpCBS6IDSCWppdB/FR0gA/eKDqCN7BYdIAOO0KUe1VLoP4sOkIF7RwfQRn4rOkAGfhEd\n";

const PAGE_PART_9: &'static str = "            QCpJLYV+cXSADNwnOoA2Unuh/xq4MTqEVJJaCt0ROuwVHUDrLcWV4n4aHUAqTS2F7ocH7B0dQOvt\n            HR0gAx6TUs9qKfQLowNk4P7RAbTe/aIDZGBNdACpNLUU+s+B66NDBHtAdACtt190gAz8MDqAVJpa\n            Ch0cpd8N2CM6hADYNzpABix0qWc1FbofII4Mc+GfA1wQHUAqTU2F/r3oABl4SHQAsQ3woOgQwa4A\n            Lo8OIZWmpkL/bnSADBwUHUDsA9w1OkSw70QHkEpUU6E7QocDowOIQ6IDZMCTa2kGair0i4DrokME\n            OxDYLjpE5Sx0R+jSTNRU6LcD34oOEWwH4ODoEJV7eHSADHw7OoBUopoKHeCs6AAZsFDi3Ak4PDpE\n            sBvw8pc0E7UV+pnRATLwiOgAFTsI2Ck6RLBvAbdGh5BKZKHX53HRASr2mOgAGfjP6ABSqWor9DXA\n            JdEhgt0bl4GN8tvRATJgoUszUluhA3w5OkAGLJb52xZnRwC+FB1AKpWFXqcnRQeo0MOBnaNDBPsB\n            cFl0CKlUNRb6F6MDZOAo0iNsmp/fiw6QgS9GB5BKVmOhn4fX0XfC6d95e1p0gAx8PjqAVLIaCx1g\n            dXSADDwrOkBFHogbstyOx500U7UW+ueiA2TgWaSFTjR7z44OkIEzgbXRIaSS1VronyWNGGp2T7zb\n            fV6eFx0gA5+NDiCVrtZCvwL4SnSIDFg0s3cosG90iAycHh1AKl2thQ7wqegAGTgaH6WatZdEB8jA\n            xbgxkjRzNRf6J6MDZOAuwHOjQxRsJ+D50SEycBrQRIeQSldzof8IRw0AfxIdoGDPBe4WHSIDp0UH\n            kGpQc6EDnBodIAMHAUdGhyjQCPjz6BAZ+BUu9yrNhYUusHhm4XeB/aNDZOAU4LboEFINai/0i4Cv\n            R4fIwFOxfPq2IjpAJj4cHUCqRe2FDvC+6AAZGAFviA5RkOW49znAhbhdqjQ3Fjp8FLgxOkQGjgEO\n";

const PAGE_PART_10: &'static str = "            iA5RiLdEB8jEe6MDSDWx0OFq4F+jQ2RgBPxtdIgC/D5pq9Ta3Qa8PzqEVBMLPTk5OkAmnoh7pU/j\n            LnhStM5ncFdDaa4s9ORLwPejQ2TifwLbR4cYqL8A9o4OkYmTogNItbHQ7/C/owNk4kHAyugQA7Qf\n            8JfRITKxBvi/0SGk2ljod/gAcE10iEy8llRQmsw2wP8BdogOkom/x90Mpbmz0O/wG7yWvs72wD8D\n            20UHGYhXA0dEh8jEdaSTG0lzZqFv7B3ArdEhMnEoPn41iUfg72lDJwNXRYeQamShb+znpOfSlbya\n            tIqcFncP4CPAttFBMnEL8PboEFKtLPSF/gdu9bjOiDT17vX0hbYHPgbsFR0kIx8m7X0uKYCFvtD3\n            SRtKKNmFtHf8PaODZGQE/APwuOggGWmAE6JDSDWz0Bf35ugAmXkg6TEk9/ZO/gp4cXSIzHwA13KQ\n            Qlnoi3OUvtBhpJH6jtFBgq0EXhMdIjO3AW+NDiHVzkLfvNfiPs6begLwedI0fI3eDPx1dIgMfZC0\n            s5qkQBb65l0IvDs6RIaOAL4I3Cc4xzzdCfg74PXRQTJ0I/5epCxY6Fv2ZuDa6BAZOhg4Ezg8OMc8\n            7AKcDvxZdJBMvZ30uKekYBb6lv2S9BibFtoD+DLwCtJd3yU6BDgLd6DbnMvxznYpGxb61r0d+HF0\n            iExtT1pd71PAnsFZ+rQN8ErgP4H7B2fJ2V8CV0eHkJRY6Ft3I/Cq6BCZewpwPvBShv+eegjwdeBE\n            3EZ2S84G3hMdQtIdhv7hOy+fAD4dHSJzO5O2oD2HYU5R7w68i5S/hnsDptEAL8cd1aSsWOiTezlw\n            fXSIATgQ+AzwJdLIPffr63uQHkW7EHgZ6Y52bdnJwDeiQ0jamIU+uZ8Cb4gOMSCPJd0dfi7pDvG7\n            x8ZZ4HDgn0j3R6wE7hobZzAuIW3aIykzFno7/wtHJm09mPQM9yXAx4EXAEuDsuxHupHrXNKf40uA\n";

const PAGE_PART_11: &'static str = "            OwdlGaqXAddEh5C0kNs+tnMb8ELg28AOoUmGZ3vgWeOvW0nPsX+ZtEjN2cBlM3jN+5L2K3888Nt4\n            x/q0Pkxa/ldShiz09i4grYz1tuggA7Yt8Mjx14rx//ZL0sj5ImAN8DPSc86XAb8Brlrk++w8/ron\n            sBupwPchbSZzELBkVj9AhX5Buo9EUqYs9G5OJN3JfWR0kILca/ylPL0QWBsdQtLmeQ29m9tJ14Kv\n            iA4izcHbgdXRISRtmYXe3SWkUYtUsm+SngKQlDkLfTqn41rWKtdVwLOBm4NzSJqAhT691wL/Hh1C\n            6lkDHIv7GEiDYaFP7zbgOcDF0UGkHr2RtOmOpIGw0PtxKfB0XBpWZfg48NboEJLasdD7cw7wPNJU\n            pTRU3wL+CN/H0uBY6P06jTsWSpGG5mfAU4HrooNIas9C79/fkNZ8l4bkauDJpBX7JA2QhT4brwQ+\n            Eh1CmtANpK1uvx8dRFJ3FvpsNKTrkN4lrNzdAjwT+Gp0EEnTsdBn52bgD4AvRAeRNuN24LnA/4sO\n            Iml6Fvps3Qw8DReeUX5uIW1l+7HoIJL6YaHP3vWkO4c/Gx1EGruFNHvk3uZSQSz0+bietPCM19QV\n            7QbSNfN/iw4iqV8W+vzcTPogfV9wDtXrGmA58OnoIJL6Z6HP123Ai3FZTc3fJcCj8W52qVgW+vw1\n            wOuB44Fbg7OoDucAhwPnRgeRNDsWepyTgScCa6ODqGifAh4D/CI6iKTZstBjfQF4GHB+dBAV6a3A\n            M3BtdqkKFnq8i0jToS4Vq75cQ3qq4vWkxWMkVcBCz8O1wB8CryA9Iyx19W3gMHwsTaqOhZ6XdwKP\n            AH4YHUSD9E7gCOBH0UEkzZ+Fnp+zgYcC744OosH4NWmJ4VcANwVnkRTEQs/TdcBxpA/pS4KzKG8f\n            Ax4MnB4dRFIsCz1vp5M+rN8fHUTZuRQ4BjgauCI4i6QMWOj5uwp4IfA7wIWhSZSLdwP7AadGB5GU\n";

const PAGE_PART_12: &'static str = "            Dwt9OM4ADgDeANwYnEUxvgs8lnQ5xgWJJG3EQh+Wm4C3APsDpwRn0fxcDryUdLPkl4OzSMqUhT5M\n            PwaeDTwKODM4i2bnRuBE4IHAP5I295GkRVnow/Y10nPHzwTOC86i/twGvJdU5P8Np9clTcBCH74G\n            OA04EHg+cEFoGk3jNtITDQ8BXgJcHBtH0pBY6OW4HfgQ6TG3Y0hLgGoYbgHeR7pz/YW4WY+kDiz0\n            8txOepzpoaTtWT8bG0dbcBWwCrgf8CJ8LFHSFCz0cjXA54AnAw8i3VR1bWgirXMe8KfAfYDX4F7l\n            knpgodfhAtJjT3sCfwx8MzZOlW4C/oX0HPkBwLvwBEtSjyz0uvwGeA9p//UDgbfh6HDWvgYcD+wO\n            PA+fI5c0IxZ6vc4FVgB7AUcCJwG/DE1Ujm+RptLvT1or4GTg6tBEkoo3apomOoPysQ2pgJ4OPIV0\n            17W27lbgK8CngE8CF8XGkVQjC11bsjfppronkq79LglNk5eLgC+Q1tj/HI7AJQWz0DWpbUjX3R8P\n            PHL8de/IQHN2PvDV8dcXgZ9EhpGkTVnomsa9SUvPHgIcPP4qoeQvJC3Mc/b4r9/A5VclZc5CV9+W\n            kq69r/t6IGnqfm9gl7BUC60F1pA2uvkh8APge+O/93EySYNjoWuediXdVX8vYI/xX3cjXZu/+/iv\n            dyMV/w7AjuN/3trTGFcDN5B2J7uaVMhXjr+uAC4DLgF+Bfyc9Kie17wlFcVClySpAD6HLklSASx0\n            SZIKYKFLklQAC12SpAJY6JIkFcBClySpABa6JEkFsNAlSSqAhS5JUgEsdEmSCmChS5JUAAtdkqQC\n            WOiSJBXAQpckqQAWuiRJBbDQJUkqgIUuSVIBLHRJkgpgoUuSVAALXZKkAljokiQVwEKXJKkAFrok\n            SQWw0CVJKoCFLklSASx0SZIKYKFLklQAC12SpAJY6JIkFcBClySpABa6JEkFsNAlSSqAhS5JUgEs\n";

const PAGE_PART_13: &'static str = "            dEmSCmChS5JUAAtdkqQCWOiSJBXAQpckqQAWuiRJBbDQJUkqgIUuSVIBLHRJkgpgoUuSVAALXZKk\n            AljokiQVwEKXJKkAFrokSQWw0CVJKoCFLklSASx0SZIKYKFLklQAC12SpAJY6JIkFcBClySpABa6\n            JEkFsNAlSSqAhS5JUgEsdEmSCrDtPF5kNBr18n2aplkx/tujxl+LWQucMP771aPR6OxeXlySpJaa\n            ppnvi836a4psS5qmWdE0zUXNdFY1TXNoj7+2SbJPm3kSZzXp97OiaZplhf1sbR03h5+h1Wts5fXP\n            6PD6mzuJnbumaU7qkD/aigl+rmUdvu9ZHX+HZ7V4jVUdX+PKlj/LlR1eo7UuP8sGrzfIY7eZQ9dm\n            OeXepCI/CbgSWAVMW1YrgLPGfxDZfCj24FDS72cVsO5NvqKZ88lLRVY1TbMkOoRmZzQarSHN8rXR\n            9Xhr87nW+jOwSSf5bd+vq9u+zkBUcexmV+hNOou+EujtjGoDRwFnNE1zSsF/uKso8+QlB0uYzftS\n            eWldam1Posf/fpvPoC7HcpcTjTUd/pshqOLYzabQmzTVdQapkGbtaNKItuTCq+HkJcKqZo6XNxSi\n            y303bcuz7WfPkg4zb13epyXfc1T8sZtFoY/fqGfR7Sy0qyWkwtvqdbWBO5o0Yi/55GXeSn/P1K7L\n            KLVtUXQZPbc9hru8RqlT7usUfeyGF/q4zM+g/bWevqyqoNSXkU5eLPV+HOfvsmhdSm0eo+dZnzSs\n            GY1Gbe8fGJqij93QQs+gzNepodTBUu/TPC4NKcC41NpOPU9cnuNLYF1Gz21fo+0JQMnT7Rsq9tgN\n            K/TxG+4U4st8nbk/2hbklNKvI83JoX0+CqPstC23JS3uVel6Un1oi9fo8llWS6EXe+xGjtBPYvrH\n            0fpWww1kS0i/e01vRQXvl1p1uY4+aVFPM3CY5WvUUuhQ6LEbUuhN0xxNulmrq5OBlaNNAMuBlVN8\n";

const PAGE_PART_14: &'static str = "            32UUPB2zgaNKPUOds2VU8ChMpbpcR590gDLNQGbSou5SVjUVepnH7jxWr1nkNbuuNHbWJNPiTVqY\n            5pSOr9FM8hoTZOjyM050oDf9rKB3UY4/27xM+bvb0JVdfrZm4CvFTWsIP3/TfpW1U2b0fbu8RptV\n            6Jqm42p349dqretrjV9vkMduU+JKcU0aGXb5cF89Go0Om2Rt9tFotHY0Gh1D99F61qP08c93wmg0\n            2oc71q1va1mTZko0nSUU/ihMxdpOu2/1c61pv6DMpiY9qWn7GVv642qLKe7YjZhy7/ILXAMc0/Y/\n            Go1GJwCndni9o5qBjIZGo9FKupe6hd6Poh+FqVjbkpvkprVp3ydbXWCm40lD6Y+rbU5Rx+5cC338\n            i+syOj9+iucjj6fbm3UwZTcu9S7Xv4p5I2egqDN9Ad2Oqa19vvVxI9bWjttOM6BdghSimGN33iP0\n            LiW5ejQadX6zjU8Euky9Hz3B2XZOuozSuywnqcV5o2F5ZrEEbB8n0Vsr7LaFvrbybaaLOXaHUOgn\n            9/C6p9J+lL6EAY1gR6NRl58RpnuERhsr8lGYWnXceW2zZdp0X1BmU1v7Hm1fo+YyX6eIY3duhT6+\n            Aav1dZ1xUU1lPErv8n0GM+0+1uXAHPybOCNlPgpTt9bX0bfw//U1QNjatXoLvb0ijt15jtCjNwro\n            8r0GM0Ifm8emEtqyFV0ehVG2+lwCts/3xaKfTY1Lvk5j8MfuPAs9eiu/LoW+ZOh/wJq74h6FqVzb\n            k+QtfWb0eXlrc9/LFeK6G/yxO89C7zLa7TLiXNR42t1rzJqH47zZsBh97rzW54xfX4W+dnyvgJJB\n            H7tzKfTxNFAOSxHO4jGUnHR5I3owT67N7yrrxYk0mY47ry34zOhhQZlNbe5Yd0GZxVVx7M5rhN6p\n            FGdw5ljsNeYp7qCd14ISfS3XuE7EBjNtHg0s5lEYtf7cWOw47HvUt7lHTr0hbnFVHLs5F/osiqZL\n";

const PAGE_PART_15: &'static str = "            oQ/lLvCub8BaDug+rKbd0xKDvh6n9aYeoW/mf5vWYlP4bV+nlhm6Ko7deRV6l1LMZSnC7At9fBNO\n            lzdg7QtKdNFmkaJlTdMM8oNBG+ljCdhJr5+3KdiNRuMdp/VrmXKHCo7dyP3QI3Q5Sch6yn28nO4Z\n            dDvxmPoZ/9qMLwO1mb4rYsGKmnU86V3/udHyctipTD4jsOlnU+vH1aZYUntwajh2ayv0YjRp+9RT\n            SGXe9aTDQu/mBCY/OVzCgG+y0XptS33DEXmb69pnM/moedOZgLbXz2uZbt9Q0cduzlPuNZr4xjHS\n            G22aleymWiO/Zh32Bxj0ozAC2k9Ndy3a1bSbSdzwxMEFZbai9GPXEXq9uu4VL2A0Gp1MJY/CCJhu\n            xbhJC2HdFHibk4cNv3fb59yrPKEv+di10Ot0gjfD9eL4Fv/uUU3az0DDNM2ja5MW7dmw/pr9pKP0\n            Q6HbWh+VfwYUeezOq9CHfOPFkLMv5tTx/uma0viSRZv7EAZzpq+NtSxZGC8BO34CZdKi3fCkYeLr\n            6Jv8dVI1l3mxx25tI/QhPz7Xh9Wj0eiY6BCFKf5RGK3XZee1ttfP15m0cNctMNO20Kucbt9Eccdu\n            ziP0XG6kK6XQTxiNRssDX3+fUb/aTJnNTA2Pwmi9ttPuy5i8aDddE6JN4R6FC8q0VuKxO69Cz2WF\n            tlxWrJuntcAxTrPPVNGPwmi9LjfGTXr9fKMC73Ad3Sn3boo6dnMudGbwuECXQh/ymezK0Wi0dDQa\n            +bz5DI3vTG5zpn8cmS9YpEW1naZuM0JfrGAnfb02rwOuELleacfuXAp9iq1L+/7F1bAb2WpSkY9G\n            o1GbN6qmMP5dt3mvZPuhoMWNP8c6L826FYuV96Sv5fXzKZR07M7zprguZ4S9jdC7PNYxlnOhryHd\n            2LGSNK0+Go1Gyy3yMFlc19dMzWpku9jnzDxfq3ZFHLvbzvG1zqb9wgdt//2+v9e8p6b2mcGWsZqT\n";

const PAGE_PART_16: &'static str = "            0Wi0umma1fT7vlVezma6FRoX/Z6bWVN9ViNpp9s3Ucqxm/0Ivce7CrschE5Nqa0izvS1WbP4TFj0\n            e45Lfhbl6+fa4gZ/7M6t0Mc3ZnW5jj712fD4pKDLmZdvfLXS4VEYDcssZtC2VNp9fwatqWmHtTZK\n            OHbnvbBMl7ut+3iY/zjcXlTz0+ZRGA3IjEbNWyrtvl/L6fYtG/SxO4RCX9Y0zXFdX3A8Ou9yUnCq\n            Z7LqosOjMBqWPkfNW9uTvO8RuoW+BUM/duda6OP1c7tMWa0ar4ncxUl0G52f3PH1pC6Pwmg4+vxz\n            3eL3msGMgIW+FUM+diPWcu9y9rMEOKXtDXLjtXc73Qw3cq9wTc/V+co074K10OdvkMfu3At91H4v\n            2nUOBc5qmmaim9uapjmF7sv0DXbKRfkY3wjqiWFhOuy8tiWTvD/6Gi1ubXpfY0M9dqN2W+v6eMAy\n            4IymaU5ZbOebpmmOappmRdM0Dd3vjj/V0flMXNTMVq7Pjw7+URgtqo+R7qTrXPT1eeTnWjuDO3ZD\n            Cn1cmNNcoz6adF19I8AZTLd4/loGOtWiPI0fhfF+jPL0UegTFWyPMwKOzlsY4rEbuR/6SvK78eB4\n            V2rTDKzED9PS9FHobb5HH6NrR+jtDerYDSv08bWc5eTzy1rprmSahaE/CqNF9VGObQp92hMId1jr\n            YGjHbuQIfd2URg6lfrIbmmiWhvwojBaaYgfJDc1zhO57r6MhHbuhhQ7rrw9FlvrK0Wg0uJsfNEje\n            n1GWaUq21R3nPVxHd7p9OoM4dsMLHda/WQ9j/m+6YxyZa16G+iiMNmuaKewu74OpTiCm+G+rN5Rj\n            N4tChzT9PhqNljOfM6HVpK1KvWaueRvEmb4mMk1Jdvlvp5n2tdCnl/2xm02hrzMeMS9lNo8LnE0a\n            lS/3bnZFGM9GDepRGG3WvEfoXV9vrZ930xvCsZtdoUO64WR8XXsp/TzedgKwfDQaHeaoXBkY1KMw\n";

const PAGE_PART_17: &'static str = "            WtwU66x3XbGt65Rv9lPFA5L1sTtK67HM+EVGo16+zwarwx3Flvc3Xzc1crarvkmSosyjY9eZS6FL\n            kqTZynLKXZIktWOhS5JUAAtdkqQCWOiSJBXAQpckqQAWuiRJBbDQJUkqgIUuSVIBLHRJkgpgoUuS\n            VAALXZKkAljokiQVwEKXJKkAFrokSQWw0CVJKoCFLklSASx0SZIKYKFLklQAC12SpAJY6JIkFcBC\n            lySpABa6JEkFsNAlSSqAhS5JUgEsdEmSCmChS5JUAAtdkqQCWOiSJBXAQpckqQAWuiRJBbDQJUkq\n            gIUuSVIBLHRJkgpgoUuSVAALXZKkAljokiQVwEKXJKkAFrokSQWw0CVJKoCFLklSASx0SZIKYKFL\n            klQAC12SpAJY6JIkFcBClySpABa6JEkFsNAlSSqAhS5JUgEsdEmSCmChS5JUAAtdkqQCWOiSJBXA\n            QpckqQAWuiRJBbDQJUkqgIUuSVIBLHRJkgpgoUuSVAALXZKkAljokiQVwEKXJKkAFrokSQWw0CVJ\n            KoCFLklSAf4/G8ayBHfTCwQAAAAASUVORK5CYII=\">\n\n            <div id=\"welcome_txt\">Welcome to OpenTwin</div>\n            <a href=\"http://127.0.0.1:80/installer/Install_OpenTwin_Frontend.exe\" download>\n                <button id=\"downloadBtn\">Download</button>\n            </a>\n\n            <style>\n                body {\n                    background-color: #04254E;\n                    font-family: 'Courier New', Courier, monospace;\n                }\n\n                img {\n                    left: 50%;\n                    top: 35%;\n";

const PAGE_PART_18: &'static str = "                    width: 200px;\n                    height: 200px;\n                    position: absolute;\n                    transform: translate(-50%, -50%);\n                }\n\n                #welcome_txt {\n                    top: 50%;\n                    left: 50%;\n                    position: absolute;\n                    transform: translate(-50%, -50%);\n                    font-size: 20px;\n                    color: white;\n                }\n        \n                #downloadBtn {\n                    width: 150px;\n                    height: 50px;\n                    top: 60%;\n                    left: 50%;\n                    border: none;\n                    border-radius: 40px;\n                    position: absolute;\n                    cursor: pointer;\n                    transform: translate(-50%, -60%);\n                    background-color: #7ca0c4;\n                    color: white;\n                    font-size: large;\n                    font-family: 'Courier New', Courier, monospace;\n                }\n\n                #downloadBtn:hover {\n                    background-color: #2f5c92;\n                }\n            </style>\n";

const PAGE_PART_19: &'static str = "            <script type=\"text/javascript\">\n                document.getElementById(\"downloadBtn\").addEventListener(\"click\", () => {\n                    alert(\"Downloading Installer...\\nPlease execute the installer after the download.\");\n                });\n            </script>\n        </body>";

/// The page served on the side channel of the installer download: the parts
/// above, in order.
pub closed spec fn download_page() -> Seq<char> {
    PAGE_PART_0@ + PAGE_PART_1@ + PAGE_PART_2@ + PAGE_PART_3@ + PAGE_PART_4@ + PAGE_PART_5@ + PAGE_PART_6@ + PAGE_PART_7@ + PAGE_PART_8@ + PAGE_PART_9@ + PAGE_PART_10@ + PAGE_PART_11@ + PAGE_PART_12@ + PAGE_PART_13@ + PAGE_PART_14@ + PAGE_PART_15@ + PAGE_PART_16@ + PAGE_PART_17@ + PAGE_PART_18@ + PAGE_PART_19@
}

/// The HTML of the installer download page.
pub fn get_download_html_body() -> (r: String)
    ensures
        r@ == download_page(),
{
    let mut page = PAGE_PART_0.to_owned();
    page.append(PAGE_PART_1);
    page.append(PAGE_PART_2);
    page.append(PAGE_PART_3);
    page.append(PAGE_PART_4);
    page.append(PAGE_PART_5);
    page.append(PAGE_PART_6);
    page.append(PAGE_PART_7);
    page.append(PAGE_PART_8);
    page.append(PAGE_PART_9);
    page.append(PAGE_PART_10);
    page.append(PAGE_PART_11);
    page.append(PAGE_PART_12);
    page.append(PAGE_PART_13);
    page.append(PAGE_PART_14);
    page.append(PAGE_PART_15);
    page.append(PAGE_PART_16);
    page.append(PAGE_PART_17);
    page.append(PAGE_PART_18);
    page.append(PAGE_PART_19);
    page
}

} // verus!
